use vstd::prelude::*;

use crate::config::{ServiceConfig, TrialConfig};
use crate::database::{Order, Payment};
use crate::device::{DeviceList, device_token, token_of};
use crate::remnawave::HwidDevice;
use crate::tariff::{Tariff, TariffCatalog, active_tariffs};
use crate::text::{
    blank, chars_of, decimal, is_blank, is_control, is_control_char, push_char, push_decimal,
    push_signed_decimal, signed_decimal,
};
use crate::time::{format_utc, parse_rfc3339, rfc3339_parsed, utc_text};

verus! {

pub const CALLBACK_HOME: &'static str = "home";
pub const CALLBACK_STATUS: &'static str = "status";
pub const CALLBACK_SUBSCRIPTION: &'static str = "subscription";
pub const CALLBACK_ABOUT: &'static str = "about";
pub const CALLBACK_TRIAL: &'static str = "trial";
pub const CALLBACK_BUY: &'static str = "buy";
pub const CALLBACK_SUPPORT: &'static str = "support";
pub const CALLBACK_DOCUMENTS: &'static str = "documents";
pub const CALLBACK_TARIFF_PREFIX: &'static str = "tariff:";
pub const CALLBACK_CHECKOUT_PREFIX: &'static str = "checkout:";
pub const CALLBACK_PAYMENT_PREFIX: &'static str = "payment:";
pub const CALLBACK_DEVICES: &'static str = "devices";
pub const CALLBACK_DEVICES_PAGE_PREFIX: &'static str = "devices_page:";
pub const CALLBACK_DEVICE_PREFIX: &'static str = "device:";

/// How dates are shown: day, month, year, hours and minutes, in UTC.
pub const UTC_MINUTES: &'static str = "%d.%m.%Y %H:%M UTC";

/// Devices shown on one page of the device list.
pub const DEVICES_PAGE_SIZE: usize = 5;

/// What pressing a button does: send back callback data, or open a URL.
#[derive(Debug, Clone)]
pub enum ButtonKind {
    Callback(String),
    Url(String),
}

/// A button of an inline keyboard.
#[derive(Debug, Clone)]
pub struct Button {
    pub text: String,
    pub kind: ButtonKind,
}

/// An inline keyboard, row by row.
#[derive(Debug, Clone)]
pub struct Keyboard {
    pub rows: Vec<Vec<Button>>,
}

/// A button as plain values: whether it opens a URL, its label, and its
/// callback data or URL.
pub type ButtonView = (bool, Seq<char>, Seq<char>);

pub open spec fn button_view(b: Button) -> ButtonView {
    match b.kind {
        ButtonKind::Callback(d) => (false, b.text@, d@),
        ButtonKind::Url(u) => (true, b.text@, u@),
    }
}

pub open spec fn row_view(r: Vec<Button>) -> Seq<ButtonView> {
    r@.map_values(|b: Button| button_view(b))
}

impl View for Keyboard {
    type V = Seq<Seq<ButtonView>>;

    open spec fn view(&self) -> Seq<Seq<ButtonView>> {
        self.rows@.map_values(|r: Vec<Button>| row_view(r))
    }
}

/// A callback button.
pub open spec fn cb(text: Seq<char>, data: Seq<char>) -> ButtonView {
    (false, text, data)
}

/// A URL button.
pub open spec fn link(text: Seq<char>, url: Seq<char>) -> ButtonView {
    (true, text, url)
}

pub fn callback_button(text: &str, data: &str) -> (b: Button)
    ensures
        button_view(b) == cb(text@, data@),
{
    Button { text: String::from_str(text), kind: ButtonKind::Callback(String::from_str(data)) }
}

pub fn callback_button_owned(text: String, data: String) -> (b: Button)
    ensures
        button_view(b) == cb(text@, data@),
{
    Button { text, kind: ButtonKind::Callback(data) }
}

pub fn url_button(text: &str, url: &str) -> (b: Button)
    ensures
        button_view(b) == link(text@, url@),
{
    Button { text: String::from_str(text), kind: ButtonKind::Url(String::from_str(url)) }
}

/// A keyboard of rows, the last of which is still being built.
fn keyboard(rows: Vec<Vec<Button>>) -> (k: Keyboard)
    ensures
        k.rows@ == rows@,
{
    Keyboard { rows }
}

fn row1(b: Button) -> (r: Vec<Button>)
    ensures
        row_view(r) == seq![button_view(b)],
{
    let mut r: Vec<Button> = Vec::new();
    r.push(b);
    assert(row_view(r) =~= seq![button_view(b)]);
    r
}

fn row2(a: Button, b: Button) -> (r: Vec<Button>)
    ensures
        row_view(r) == seq![button_view(a), button_view(b)],
{
    let mut r: Vec<Button> = Vec::new();
    r.push(a);
    r.push(b);
    assert(row_view(r) =~= seq![button_view(a), button_view(b)]);
    r
}

pub open spec fn home_text_spec() -> Seq<char> {
    "🛡 SilentOkVPN\n\n\
     Панель управления вашей VPN-подпиской.\n\n\
     Выберите действие:"@
}

/// The text of the main menu.
pub fn home_text() -> (r: &'static str)
    ensures
        r@ == home_text_spec(),
{
    "🛡 SilentOkVPN\n\n\
     Панель управления вашей VPN-подпиской.\n\n\
     Выберите действие:"
}

pub open spec fn documents_text_spec() -> Seq<char> {
    "📄 Документы SilentOkVPN\n\n\
     Перед приобретением подписки ознакомьтесь \
     с пользовательским соглашением и политикой \
     конфиденциальности.\n\n\
     Условия возврата включены в пользовательское соглашение."@
}

/// The text of the documents screen.
pub fn documents_text() -> (r: &'static str)
    ensures
        r@ == documents_text_spec(),
{
    "📄 Документы SilentOkVPN\n\n\
     Перед приобретением подписки ознакомьтесь \
     с пользовательским соглашением и политикой \
     конфиденциальности.\n\n\
     Условия возврата включены в пользовательское соглашение."
}

pub open spec fn no_tariffs_text() -> Seq<char> {
    "💳 Тарифы\n\n\
     Сейчас нет доступных тарифов."@
}

pub open spec fn choose_tariff_text() -> Seq<char> {
    "💳 Тарифы\n\n\
     Выберите подходящий вариант. Перед оформлением можно ознакомиться \
     с описанием и условиями каждого тарифа:"@
}

/// The heading of the tariff list: it says that nothing is on sale when no
/// tariff is active.
pub fn tariffs_text(tariffs: &TariffCatalog) -> (r: String)
    ensures
        r@ == (if active_tariffs(tariffs@).len() == 0 {
            no_tariffs_text()
        } else {
            choose_tariff_text()
        }),
{
    let active = tariffs.active();
    if active.len() == 0 {
        proof {
            assert(crate::tariff::derefs(active@).len() == active@.len());
        }
        String::from_str(
            "💳 Тарифы\n\n\
             Сейчас нет доступных тарифов.",
        )
    } else {
        proof {
            assert(crate::tariff::derefs(active@).len() == active@.len());
        }
        String::from_str(
            "💳 Тарифы\n\n\
             Выберите подходящий вариант. Перед оформлением можно ознакомиться \
             с описанием и условиями каждого тарифа:",
        )
    }
}

/// `<n> GiB`, or `Без лимита` when there is no limit.
pub open spec fn traffic_label(gib: Option<u64>) -> Seq<char> {
    match gib {
        Some(g) => decimal(g as nat) + " GiB"@,
        None => "Без лимита"@,
    }
}

pub open spec fn tariff_text_spec(t: Tariff) -> Seq<char> {
    "💳 "@ + t.name@ + "\n\n"@ + t.description@ + "\n\n💰 Цена: "@ + decimal(
        (t.price_kopecks / 100) as nat,
    ) + " ₽\n📅 Срок доступа: "@ + signed_decimal(t.duration_days as int) + " дней\n📊 Трафик: "@
        + traffic_label(t.traffic_gib) + "\n📱 Устройств: до "@ + decimal(t.hwid_limit as nat)
        + "\n\nДоступ активируется после подтверждения оплаты."@
}

/// The description of one tariff.
pub fn tariff_text(tariff: &Tariff) -> (r: String)
    ensures
        r@ == tariff_text_spec(*tariff),
{
    let mut s = String::from_str("💳 ");
    s.append(tariff.name.as_str());
    s.append("\n\n");
    s.append(tariff.description.as_str());
    s.append("\n\n💰 Цена: ");
    push_decimal(&mut s, tariff.price_rubles());
    s.append(" ₽\n📅 Срок доступа: ");
    push_signed_decimal(&mut s, tariff.duration_days);
    s.append(" дней\n📊 Трафик: ");
    let ghost before = s@;
    match tariff.traffic_gib {
        Some(gib) => {
            push_decimal(&mut s, gib);
            s.append(" GiB");
        },
        None => {
            s.append("Без лимита");
        },
    }
    assert(s@ =~= before + traffic_label(tariff.traffic_gib));
    s.append("\n📱 Устройств: до ");
    push_decimal(&mut s, tariff.hwid_limit as u64);
    s.append("\n\nДоступ активируется после подтверждения оплаты.");
    assert(s@ =~= tariff_text_spec(*tariff));
    s
}

pub open spec fn checkout_text_spec(t: Tariff) -> Seq<char> {
    "🧾 Оформление заказа\n\nТариф: "@ + t.name@ + "\nСумма: "@ + decimal(
        (t.price_kopecks / 100) as nat,
    ) + " ₽\nСрок доступа: "@ + signed_decimal(t.duration_days as int)
        + " дней\n\n\
         Продолжая оформление, пользователь подтверждает, \
         что ознакомился с пользовательским соглашением \
         и политикой конфиденциальности.\n\n\
         Условия возврата указаны в пользовательском соглашении.\n\n\
         Создание платёжного счёта пока недоступно."@
}

/// The confirmation shown before an order is made.
pub fn checkout_text(tariff: &Tariff) -> (r: String)
    ensures
        r@ == checkout_text_spec(*tariff),
{
    let mut s = String::from_str("🧾 Оформление заказа\n\nТариф: ");
    s.append(tariff.name.as_str());
    s.append("\nСумма: ");
    push_decimal(&mut s, tariff.price_rubles());
    s.append(" ₽\nСрок доступа: ");
    push_signed_decimal(&mut s, tariff.duration_days);
    s.append(
        " дней\n\n\
         Продолжая оформление, пользователь подтверждает, \
         что ознакомился с пользовательским соглашением \
         и политикой конфиденциальности.\n\n\
         Условия возврата указаны в пользовательском соглашении.\n\n\
         Создание платёжного счёта пока недоступно.",
    );
    assert(s@ =~= checkout_text_spec(*tariff));
    s
}

pub open spec fn support_text_spec(service: ServiceConfig) -> Seq<char> {
    "🆘 Поддержка и контакты\n\nTelegram: "@ + service.support_telegram_url@ + "\nE-mail: "@
        + service.support_email@ + (match service.phone {
        Some(p) => "\nТелефон: "@ + p@,
        None => Seq::empty(),
    }) + (match service.contact_address {
        Some(a) => "\nАдрес: "@ + a@,
        None => Seq::empty(),
    }) + "\n\nПо вопросам работы сервиса, оплаты и возврата \
         обращайтесь в поддержку."@
}

/// The contacts of the service; the phone and the address appear only when
/// they are set.
pub fn support_text(service: &ServiceConfig) -> (r: String)
    ensures
        r@ == support_text_spec(*service),
{
    let mut s = String::from_str("🆘 Поддержка и контакты\n\nTelegram: ");
    s.append(service.support_telegram_url.as_str());
    s.append("\nE-mail: ");
    s.append(service.support_email.as_str());
    let ghost a = s@;
    match &service.phone {
        Some(phone) => {
            s.append("\nТелефон: ");
            s.append(phone.as_str());
        },
        None => {},
    }
    let ghost b = s@;
    assert(b =~= a + (match service.phone {
        Some(p) => "\nТелефон: "@ + p@,
        None => Seq::empty(),
    }));
    match &service.contact_address {
        Some(address) => {
            s.append("\nАдрес: ");
            s.append(address.as_str());
        },
        None => {},
    }
    assert(s@ =~= b + (match service.contact_address {
        Some(a) => "\nАдрес: "@ + a@,
        None => Seq::empty(),
    }));
    s.append(
        "\n\nПо вопросам работы сервиса, оплаты и возврата \
         обращайтесь в поддержку.",
    );
    assert(s@ =~= support_text_spec(*service));
    s
}

pub open spec fn about_text_spec(trial: TrialConfig) -> Seq<char> {
    "ℹ️ О сервисе\n\n\
     SilentOkVPN предоставляет VPN-доступ для защищённого сетевого соединения.\n\n\
     В боте можно приобрести подписку, проверить её состояние, \
     посмотреть использование трафика и получить ссылку для подключения.\n\n\
     🎁 Пробная подписка:\n\
     📅 Срок: "@ + signed_decimal(trial.days as int) + " дн.\n📊 Трафик: "@ + decimal(
        trial.traffic_gib as nat,
    ) + " GiB\n📱 Устройства: до "@ + decimal(trial.hwid_limit as nat)
}

/// The description of the service, with what a trial grants.
pub fn about_text(trial: &TrialConfig) -> (r: String)
    ensures
        r@ == about_text_spec(*trial),
{
    let mut s = String::from_str(
        "ℹ️ О сервисе\n\n\
         SilentOkVPN предоставляет VPN-доступ для защищённого сетевого соединения.\n\n\
         В боте можно приобрести подписку, проверить её состояние, \
         посмотреть использование трафика и получить ссылку для подключения.\n\n\
         🎁 Пробная подписка:\n\
         📅 Срок: ",
    );
    push_signed_decimal(&mut s, trial.days);
    s.append(" дн.\n📊 Трафик: ");
    push_decimal(&mut s, trial.traffic_gib);
    s.append(" GiB\n📱 Устройства: до ");
    push_decimal(&mut s, trial.hwid_limit as u64);
    assert(s@ =~= about_text_spec(*trial));
    s
}

} // verus!

verus! {

/// The keyboard of the main menu.
pub fn home_keyboard() -> (k: Keyboard)
    ensures
        k@ == seq![
            seq![cb("📋 Моя подписка"@, CALLBACK_STATUS@)],
            seq![cb("📱 Устройства"@, CALLBACK_DEVICES@)],
            seq![cb("💳 Купить подписку"@, CALLBACK_BUY@)],
            seq![cb("🎁 Попробовать бесплатно"@, CALLBACK_TRIAL@)],
            seq![cb("🔑 Ссылка"@, CALLBACK_SUBSCRIPTION@), cb("ℹ️ О сервисе"@, CALLBACK_ABOUT@)],
            seq![cb("🆘 Поддержка"@, CALLBACK_SUPPORT@), cb("📄 Документы"@, CALLBACK_DOCUMENTS@)],
        ],
{
    let mut rows: Vec<Vec<Button>> = Vec::new();
    rows.push(row1(callback_button("📋 Моя подписка", CALLBACK_STATUS)));
    rows.push(row1(callback_button("📱 Устройства", CALLBACK_DEVICES)));
    rows.push(row1(callback_button("💳 Купить подписку", CALLBACK_BUY)));
    rows.push(row1(callback_button("🎁 Попробовать бесплатно", CALLBACK_TRIAL)));
    rows.push(
        row2(
            callback_button("🔑 Ссылка", CALLBACK_SUBSCRIPTION),
            callback_button("ℹ️ О сервисе", CALLBACK_ABOUT),
        ),
    );
    rows.push(
        row2(
            callback_button("🆘 Поддержка", CALLBACK_SUPPORT),
            callback_button("📄 Документы", CALLBACK_DOCUMENTS),
        ),
    );
    let k = keyboard(rows);
    assert(k@ =~= seq![
        seq![cb("📋 Моя подписка"@, CALLBACK_STATUS@)],
        seq![cb("📱 Устройства"@, CALLBACK_DEVICES@)],
        seq![cb("💳 Купить подписку"@, CALLBACK_BUY@)],
        seq![cb("🎁 Попробовать бесплатно"@, CALLBACK_TRIAL@)],
        seq![cb("🔑 Ссылка"@, CALLBACK_SUBSCRIPTION@), cb("ℹ️ О сервисе"@, CALLBACK_ABOUT@)],
        seq![cb("🆘 Поддержка"@, CALLBACK_SUPPORT@), cb("📄 Документы"@, CALLBACK_DOCUMENTS@)],
    ]);
    k
}

} // verus!

verus! {
/// The keyboard shown after a trial was issued.
pub fn trial_keyboard() -> (k: Keyboard)
    ensures
        k@ == seq![
            seq![cb("📋 Моя подписка"@, CALLBACK_STATUS@)],
            seq![cb("🔑 Получить ссылку"@, CALLBACK_SUBSCRIPTION@)],
            seq![cb("⬅️ Назад"@, CALLBACK_HOME@)],
        ],
{
    let mut rows: Vec<Vec<Button>> = Vec::new();
    rows.push(row1(callback_button("📋 Моя подписка", CALLBACK_STATUS)));
    rows.push(row1(callback_button("🔑 Получить ссылку", CALLBACK_SUBSCRIPTION)));
    rows.push(row1(callback_button("⬅️ Назад", CALLBACK_HOME)));
    let k = keyboard(rows);
    assert(k@ =~= seq![
        seq![cb("📋 Моя подписка"@, CALLBACK_STATUS@)],
        seq![cb("🔑 Получить ссылку"@, CALLBACK_SUBSCRIPTION@)],
        seq![cb("⬅️ Назад"@, CALLBACK_HOME@)],
    ]);
    k
}

/// The keyboard of the subscription status.
pub fn status_keyboard() -> (k: Keyboard)
    ensures
        k@ == seq![
            seq![cb("🔄 Обновить"@, CALLBACK_STATUS@)],
            seq![cb("🔑 Получить ссылку"@, CALLBACK_SUBSCRIPTION@)],
            seq![cb("📱 Устройства"@, CALLBACK_DEVICES@)],
            seq![cb("⬅️ Назад"@, CALLBACK_HOME@)],
        ],
{
    let mut rows: Vec<Vec<Button>> = Vec::new();
    rows.push(row1(callback_button("🔄 Обновить", CALLBACK_STATUS)));
    rows.push(row1(callback_button("🔑 Получить ссылку", CALLBACK_SUBSCRIPTION)));
    rows.push(row1(callback_button("📱 Устройства", CALLBACK_DEVICES)));
    rows.push(row1(callback_button("⬅️ Назад", CALLBACK_HOME)));
    let k = keyboard(rows);
    assert(k@ =~= seq![
        seq![cb("🔄 Обновить"@, CALLBACK_STATUS@)],
        seq![cb("🔑 Получить ссылку"@, CALLBACK_SUBSCRIPTION@)],
        seq![cb("📱 Устройства"@, CALLBACK_DEVICES@)],
        seq![cb("⬅️ Назад"@, CALLBACK_HOME@)],
    ]);
    k
}

/// The keyboard that leads back to the devices.
pub fn devices_back_keyboard() -> (k: Keyboard)
    ensures
        k@ == seq![
            seq![cb("📱 К устройствам"@, CALLBACK_DEVICES@)],
            seq![cb("🏠 Главное меню"@, CALLBACK_HOME@)],
        ],
{
    let mut rows: Vec<Vec<Button>> = Vec::new();
    rows.push(row1(callback_button("📱 К устройствам", CALLBACK_DEVICES)));
    rows.push(row1(callback_button("🏠 Главное меню", CALLBACK_HOME)));
    let k = keyboard(rows);
    assert(k@ =~= seq![
        seq![cb("📱 К устройствам"@, CALLBACK_DEVICES@)],
        seq![cb("🏠 Главное меню"@, CALLBACK_HOME@)],
    ]);
    k
}

/// A single button back to the main menu.
pub fn back_keyboard() -> (k: Keyboard)
    ensures
        k@ == seq![
            seq![cb("⬅️ Назад"@, CALLBACK_HOME@)],
        ],
{
    let mut rows: Vec<Vec<Button>> = Vec::new();
    rows.push(row1(callback_button("⬅️ Назад", CALLBACK_HOME)));
    let k = keyboard(rows);
    assert(k@ =~= seq![
        seq![cb("⬅️ Назад"@, CALLBACK_HOME@)],
    ]);
    k
}

/// The keyboard of the description of the service.
pub fn about_keyboard() -> (k: Keyboard)
    ensures
        k@ == seq![
            seq![cb("🆘 Поддержка"@, CALLBACK_SUPPORT@), cb("📄 Документы"@, CALLBACK_DOCUMENTS@)],
            seq![cb("⬅️ Назад"@, CALLBACK_HOME@)],
        ],
{
    let mut rows: Vec<Vec<Button>> = Vec::new();
    rows.push(row2(callback_button("🆘 Поддержка", CALLBACK_SUPPORT), callback_button("📄 Документы", CALLBACK_DOCUMENTS)));
    rows.push(row1(callback_button("⬅️ Назад", CALLBACK_HOME)));
    let k = keyboard(rows);
    assert(k@ =~= seq![
        seq![cb("🆘 Поддержка"@, CALLBACK_SUPPORT@), cb("📄 Документы"@, CALLBACK_DOCUMENTS@)],
        seq![cb("⬅️ Назад"@, CALLBACK_HOME@)],
    ]);
    k
}

/// The keyboard of the contacts.
pub fn support_keyboard(service: &ServiceConfig) -> (k: Keyboard)
    ensures
        k@ == seq![
            seq![link("Написать в Telegram"@, service.support_telegram_url@)],
            seq![cb("📄 Документы"@, CALLBACK_DOCUMENTS@)],
            seq![cb("⬅️ Назад"@, CALLBACK_HOME@)],
        ],
{
    let mut rows: Vec<Vec<Button>> = Vec::new();
    rows.push(row1(url_button("Написать в Telegram", service.support_telegram_url.as_str())));
    rows.push(row1(callback_button("📄 Документы", CALLBACK_DOCUMENTS)));
    rows.push(row1(callback_button("⬅️ Назад", CALLBACK_HOME)));
    let k = keyboard(rows);
    assert(k@ =~= seq![
        seq![link("Написать в Telegram"@, service.support_telegram_url@)],
        seq![cb("📄 Документы"@, CALLBACK_DOCUMENTS@)],
        seq![cb("⬅️ Назад"@, CALLBACK_HOME@)],
    ]);
    k
}

/// Links to the documents of the service.
pub fn documents_keyboard(service: &ServiceConfig) -> (k: Keyboard)
    ensures
        k@ == seq![
            seq![link("📚 SilentOkVPN Docs"@, service.docs_url@)],
            seq![link("📜 Пользовательское соглашение"@, service.user_agreement_url@)],
            seq![link("🔐 Политика конфиденциальности"@, service.privacy_url@)],
            seq![cb("⬅️ Назад"@, CALLBACK_HOME@)],
        ],
{
    let mut rows: Vec<Vec<Button>> = Vec::new();
    rows.push(row1(url_button("📚 SilentOkVPN Docs", service.docs_url.as_str())));
    rows.push(row1(url_button("📜 Пользовательское соглашение", service.user_agreement_url.as_str())));
    rows.push(row1(url_button("🔐 Политика конфиденциальности", service.privacy_url.as_str())));
    rows.push(row1(callback_button("⬅️ Назад", CALLBACK_HOME)));
    let k = keyboard(rows);
    assert(k@ =~= seq![
        seq![link("📚 SilentOkVPN Docs"@, service.docs_url@)],
        seq![link("📜 Пользовательское соглашение"@, service.user_agreement_url@)],
        seq![link("🔐 Политика конфиденциальности"@, service.privacy_url@)],
        seq![cb("⬅️ Назад"@, CALLBACK_HOME@)],
    ]);
    k
}

/// The keyboard of the confirmation before an order.
pub fn checkout_keyboard(service: &ServiceConfig) -> (k: Keyboard)
    ensures
        k@ == seq![
            seq![link("📜 Соглашение"@, service.user_agreement_url@), link("🔐 Конфиденциальность"@, service.privacy_url@)],
            seq![link("📚 Все документы"@, service.docs_url@)],
            seq![cb("⬅️ К тарифам"@, CALLBACK_BUY@)],
            seq![cb("🏠 Главное меню"@, CALLBACK_HOME@)],
        ],
{
    let mut rows: Vec<Vec<Button>> = Vec::new();
    rows.push(row2(url_button("📜 Соглашение", service.user_agreement_url.as_str()), url_button("🔐 Конфиденциальность", service.privacy_url.as_str())));
    rows.push(row1(url_button("📚 Все документы", service.docs_url.as_str())));
    rows.push(row1(callback_button("⬅️ К тарифам", CALLBACK_BUY)));
    rows.push(row1(callback_button("🏠 Главное меню", CALLBACK_HOME)));
    let k = keyboard(rows);
    assert(k@ =~= seq![
        seq![link("📜 Соглашение"@, service.user_agreement_url@), link("🔐 Конфиденциальность"@, service.privacy_url@)],
        seq![link("📚 Все документы"@, service.docs_url@)],
        seq![cb("⬅️ К тарифам"@, CALLBACK_BUY@)],
        seq![cb("🏠 Главное меню"@, CALLBACK_HOME@)],
    ]);
    k
}

} // verus!

verus! {

/// The keyboard of one tariff: continue to the order, the documents, and
/// the way back.
pub fn tariff_keyboard(tariff: &Tariff, service: &ServiceConfig) -> (k: Keyboard)
    ensures
        k@ == seq![
            seq![cb("Продолжить оформление"@, CALLBACK_CHECKOUT_PREFIX@ + tariff.code@)],
            seq![link("📜 Соглашение"@, service.user_agreement_url@), link("🔐 Конфиденциальность"@, service.privacy_url@)],
            seq![link("📚 Все документы"@, service.docs_url@)],
            seq![cb("⬅️ К тарифам"@, CALLBACK_BUY@)],
            seq![cb("🏠 Главное меню"@, CALLBACK_HOME@)],
        ],
{
    let mut rows: Vec<Vec<Button>> = Vec::new();
    let data = crate::text::concat2(CALLBACK_CHECKOUT_PREFIX, tariff.code.as_str());
    rows.push(row1(callback_button_owned(String::from_str("Продолжить оформление"), data)));
    rows.push(row2(url_button("📜 Соглашение", service.user_agreement_url.as_str()), url_button("🔐 Конфиденциальность", service.privacy_url.as_str())));
    rows.push(row1(url_button("📚 Все документы", service.docs_url.as_str())));
    rows.push(row1(callback_button("⬅️ К тарифам", CALLBACK_BUY)));
    rows.push(row1(callback_button("🏠 Главное меню", CALLBACK_HOME)));
    let k = keyboard(rows);
    assert(k@ =~= seq![
        seq![cb("Продолжить оформление"@, CALLBACK_CHECKOUT_PREFIX@ + tariff.code@)],
        seq![link("📜 Соглашение"@, service.user_agreement_url@), link("🔐 Конфиденциальность"@, service.privacy_url@)],
        seq![link("📚 Все документы"@, service.docs_url@)],
        seq![cb("⬅️ К тарифам"@, CALLBACK_BUY@)],
        seq![cb("🏠 Главное меню"@, CALLBACK_HOME@)],
    ]);
    k
}

/// The row of a tariff in the list: `<name> — <rubles> ₽`, opening it.
pub open spec fn tariff_row(t: Tariff) -> Seq<ButtonView> {
    seq![cb(t.name@ + " — "@ + decimal((t.price_kopecks / 100) as nat) + " ₽"@, CALLBACK_TARIFF_PREFIX@ + t.code@)]
}

/// One row per tariff on sale, in catalogue order, then the way back.
pub fn tariffs_keyboard(tariffs: &TariffCatalog) -> (k: Keyboard)
    ensures
        k@ == active_tariffs(tariffs@).map_values(|t: Tariff| tariff_row(t)).push(
            seq![cb("⬅️ Назад"@, CALLBACK_HOME@)],
        ),
{
    let active = tariffs.active();
    let mut rows: Vec<Vec<Button>> = Vec::new();
    let mut i: usize = 0;
    while i < active.len()
        invariant
            i <= active@.len(),
            rows@.len() == i,
            crate::tariff::derefs(active@) == active_tariffs(tariffs@),
            rows@.map_values(|r: Vec<Button>| row_view(r)) == crate::tariff::derefs(active@).take(i as int).map_values(|t: Tariff| tariff_row(t)),
        decreases active@.len() - i,
    {
        let t = active[i];
        let mut label = String::from_str(t.name.as_str());
        label.append(" — ");
        push_decimal(&mut label, t.price_rubles());
        label.append(" ₽");
        let data = crate::text::concat2(CALLBACK_TARIFF_PREFIX, t.code.as_str());
        let ghost before = rows@;
        let row = row1(callback_button_owned(label, data));
        rows.push(row);
        proof {
            let ds = crate::tariff::derefs(active@);
            assert(ds[i as int] == *t);
            assert(ds.take(i + 1) =~= ds.take(i as int).push(*t));
            assert(row_view(row) =~= tariff_row(*t));
            assert(rows@.map_values(|r: Vec<Button>| row_view(r)) =~= before.map_values(
                |r: Vec<Button>| row_view(r),
            ).push(row_view(row)));
            assert(ds.take(i + 1).map_values(|t: Tariff| tariff_row(t)) =~= ds.take(
                i as int,
            ).map_values(|t: Tariff| tariff_row(t)).push(tariff_row(*t)));
            assert(rows@.map_values(|r: Vec<Button>| row_view(r)) =~= ds.take(i + 1).map_values(|t: Tariff| tariff_row(t)));
        }
        i = i + 1;
    }
    proof {
        let ds = crate::tariff::derefs(active@);
        assert(ds.take(i as int) =~= ds);
    }
    let ghost before = rows@;
    rows.push(row1(callback_button("⬅️ Назад", CALLBACK_HOME)));
    let k = keyboard(rows);
    assert(k@ =~= before.map_values(|r: Vec<Button>| row_view(r)).push(seq![cb("⬅️ Назад"@, CALLBACK_HOME@)]));
    k
}

/// Whole rubles of a price in kopecks, as integer division rounds.
pub open spec fn rubles_of(kopecks: i64) -> int {
    if kopecks >= 0 { kopecks / 100 } else { -((-kopecks) / 100) }
}

fn rubles(kopecks: i64) -> (r: i64)
    ensures
        r == rubles_of(kopecks),
{
    if kopecks >= 0 {
        kopecks / 100
    } else if kopecks == i64::MIN {
        -92233720368547758
    } else {
        -((-kopecks) / 100)
    }
}

/// A payment link was created for the order.
pub open spec fn has_payment_link(payment: Option<Payment>) -> bool {
    match payment {
        Some(p) => p.payment_url is Some,
        None => false,
    }
}

pub open spec fn order_text_spec(order: Order, payment: Option<Payment>) -> Seq<char> {
    "🧾 Заказ #"@ + signed_decimal(order.id as int) + "\n\nТариф: "@ + order.tariff_name@
        + "\nСумма: "@ + signed_decimal(rubles_of(order.price_kopecks)) + " ₽\nСрок доступа: "@
        + signed_decimal(order.duration_days as int) + " дней\nСтатус: ожидает оплаты\n\n"@ + (if has_payment_link(payment) {
        "Платёжная ссылка создана.\nНажмите «Оплатить» ниже."@
    } else {
        "Заказ сохранён.\n\
         Платёжная ссылка пока недоступна.\n\
         Попробуйте снова немного позже."@
    })
}

/// The summary of a pending order, and whether it can be paid yet.
pub fn order_text(order: &Order, payment: Option<&Payment>) -> (r: String)
    ensures
        r@ == order_text_spec(*order, match payment {
            Some(p) => Some(*p),
            None => None,
        }),
{
    let linked = match payment {
        Some(p) => p.payment_url.is_some(),
        None => false,
    };
    let mut s = String::from_str("🧾 Заказ #");
    push_signed_decimal(&mut s, order.id);
    s.append("\n\nТариф: ");
    s.append(order.tariff_name.as_str());
    s.append("\nСумма: ");
    push_signed_decimal(&mut s, rubles(order.price_kopecks));
    s.append(" ₽\nСрок доступа: ");
    push_signed_decimal(&mut s, order.duration_days as i64);
    s.append(" дней\nСтатус: ожидает оплаты\n\n");
    if linked {
        s.append("Платёжная ссылка создана.\nНажмите «Оплатить» ниже.");
    } else {
        s.append(
            "Заказ сохранён.\n\
             Платёжная ссылка пока недоступна.\n\
             Попробуйте снова немного позже.",
        );
    }
    assert(s@ =~= order_text_spec(*order, match payment {
        Some(p) => Some(*p),
        None => None,
    }));
    s
}

/// The first row of an order's keyboard: pay by the link when the payment
/// has one that parses, else try the order again.
pub open spec fn order_first_row(order: Order, payment: Option<Payment>) -> Seq<ButtonView> {
    match payment {
        Some(p) => match p.payment_url {
            Some(u) => match crate::url::url_parts(u@) {
                Some((_, s)) => seq![link("💳 Оплатить"@, s)],
                None => seq![cb("🔄 Попробовать снова"@, CALLBACK_CHECKOUT_PREFIX@ + order.tariff_code@)],
            },
            None => seq![cb("🔄 Попробовать снова"@, CALLBACK_CHECKOUT_PREFIX@ + order.tariff_code@)],
        },
        None => seq![cb("🔄 Попробовать снова"@, CALLBACK_CHECKOUT_PREFIX@ + order.tariff_code@)],
    }
}

/// The keyboard of a pending order.
pub fn order_keyboard(service: &ServiceConfig, order: &Order, payment: Option<&Payment>) -> (k: Keyboard)
    ensures
        k@ == seq![
            order_first_row(*order, match payment {
                Some(p) => Some(*p),
                None => None,
            }),
            seq![link("📜 Соглашение"@, service.user_agreement_url@), link("🔐 Конфиденциальность"@, service.privacy_url@)],
            seq![cb("⬅️ К тарифам"@, CALLBACK_BUY@)],
            seq![cb("🏠 Главное меню"@, CALLBACK_HOME@)],
        ],
{
    let parsed = match payment {
        Some(p) => match &p.payment_url {
            Some(u) => crate::url::parse_url(u.as_str()),
            None => None,
        },
        None => None,
    };
    let mut rows: Vec<Vec<Button>> = Vec::new();
    match parsed {
        Some(u) => {
            rows.push(row1(url_button("💳 Оплатить", u.serialization.as_str())));
        },
        None => {
            let data = crate::text::concat2(CALLBACK_CHECKOUT_PREFIX, order.tariff_code.as_str());
            rows.push(row1(callback_button_owned(String::from_str("🔄 Попробовать снова"), data)));
        },
    }
    rows.push(row2(url_button("📜 Соглашение", service.user_agreement_url.as_str()), url_button("🔐 Конфиденциальность", service.privacy_url.as_str())));
    rows.push(row1(callback_button("⬅️ К тарифам", CALLBACK_BUY)));
    rows.push(row1(callback_button("🏠 Главное меню", CALLBACK_HOME)));
    let k = keyboard(rows);
    assert(k@ =~= seq![
        order_first_row(*order, match payment {
            Some(p) => Some(*p),
            None => None,
        }),
        seq![link("📜 Соглашение"@, service.user_agreement_url@), link("🔐 Конфиденциальность"@, service.privacy_url@)],
        seq![cb("⬅️ К тарифам"@, CALLBACK_BUY@)],
        seq![cb("🏠 Главное меню"@, CALLBACK_HOME@)],
    ]);
    k
}

} // verus!

verus! {

// ---------------------------------------------------------------------------
// Devices
// ---------------------------------------------------------------------------

/// The characters of `s` that are not control characters.
pub open spec fn printable(s: Seq<char>) -> Seq<char> {
    s.filter(|c: char| !is_control(c))
}

/// At most `max` printable characters of `s`, from the start.
pub open spec fn label(s: Seq<char>, max: nat) -> Seq<char> {
    let p = printable(s);
    if p.len() <= max {
        p
    } else {
        p.take(max as int)
    }
}

/// `value` without control characters, cut to `max_chars` characters, so
/// that a name sent by a device cannot break the layout of a message.
pub fn device_label(value: &str, max_chars: usize) -> (r: String)
    ensures
        r@ == label(value@, max_chars as nat),
{
    let cs = chars_of(value);
    let mut r = String::new();
    let mut count: usize = 0;
    let mut i: usize = 0;
    while i < cs.len()
        invariant
            cs@ == value@,
            i <= cs.len(),
            count == r@.len(),
            r@ == label(cs@.take(i as int), max_chars as nat),
        decreases cs.len() - i,
    {
        let c = cs[i];
        let ghost before = r@;
        proof {
            let s = cs@.take(i + 1);
            assert(s.drop_last() =~= cs@.take(i as int));
            assert(s.last() == c);
            reveal_with_fuel(Seq::filter, 1);
            assert(printable(s) == if !is_control(c) {
                printable(cs@.take(i as int)).push(c)
            } else {
                printable(cs@.take(i as int))
            });
        }
        if !is_control_char(c) && count < max_chars {
            push_char(&mut r, c);
            count = count + 1;
            proof {
                let p = printable(cs@.take(i as int));
                assert(p.push(c).take((max_chars) as int) =~= p.push(c) || p.len() + 1 <= max_chars);
            }
        }
        proof {
            let p = printable(cs@.take(i as int));
            let q = printable(cs@.take(i + 1));
            if !is_control(c) && before.len() < max_chars {
                assert(r@ =~= label(cs@.take(i + 1), max_chars as nat));
            } else if !is_control(c) {
                assert(q.take(max_chars as int) =~= p.take(max_chars as int));
                assert(r@ =~= label(cs@.take(i + 1), max_chars as nat));
            } else {
                assert(q == p);
            }
        }
        i = i + 1;
    }
    assert(cs@.take(i as int) =~= cs@);
    r
}

/// A text that is present and not blank.
pub open spec fn present(o: Option<String>) -> bool {
    match o {
        Some(s) => !blank(s@),
        None => false,
    }
}

/// The name of a device: its model, else its platform, else `Устройство`,
/// as a label of at most forty characters.
pub open spec fn device_name_of(d: HwidDevice) -> Seq<char> {
    label(
        if present(d.device_model) {
            d.device_model->0@
        } else if present(d.platform) {
            d.platform->0@
        } else {
            "Устройство"@
        },
        40,
    )
}

fn is_present(o: &Option<String>) -> (b: bool)
    ensures
        b == present(*o),
{
    match o {
        Some(s) => !is_blank(s.as_str()),
        None => false,
    }
}

pub fn device_name(device: &HwidDevice) -> (r: String)
    ensures
        r@ == device_name_of(*device),
{
    if is_present(&device.device_model) {
        match &device.device_model {
            Some(m) => device_label(m.as_str(), 40),
            None => String::new(),
        }
    } else if is_present(&device.platform) {
        match &device.platform {
            Some(p) => device_label(p.as_str(), 40),
            None => String::new(),
        }
    } else {
        device_label("Устройство", 40)
    }
}

/// When a device was added, as `dd.mm.yyyy HH:MM UTC`, or `Не указано`
/// when its time does not parse.
pub open spec fn added_at_of(d: HwidDevice) -> Seq<char> {
    match rfc3339_parsed(d.created_at@) {
        Ok(t) => match utc_text(t, UTC_MINUTES@) {
            Some(s) => s,
            None => "Не указано"@,
        },
        Err(_) => "Не указано"@,
    }
}

pub fn device_added_at(device: &HwidDevice) -> (r: String)
    ensures
        r@ == added_at_of(*device),
{
    match parse_rfc3339(device.created_at.as_str()) {
        Ok(t) => match format_utc(t, UTC_MINUTES) {
            Some(s) => s,
            None => String::from_str("Не указано"),
        },
        Err(_) => String::from_str("Не указано"),
    }
}

pub open spec fn confirmation_text(d: HwidDevice) -> Seq<char> {
    "📱 "@ + device_name_of(d) + "\n\nСистема: "@ + label(
        match d.platform {
            Some(p) => p@,
            None => "Не указана"@,
        },
        40,
    ) + "\nВерсия: "@ + label(
        match d.os_version {
            Some(v) => v@,
            None => "Не указана"@,
        },
        40,
    ) + "\nДобавлено: "@ + added_at_of(d)
}

/// The details of one device, with the way back to the list.
pub fn device_confirmation_screen(device: &HwidDevice) -> (r: (String, Keyboard))
    ensures
        r.0@ == confirmation_text(*device),
        r.1@ == seq![seq![cb("⬅️ К устройствам"@, CALLBACK_DEVICES@)]],
{
    let mut text = String::from_str("📱 ");
    let name = device_name(device);
    text.append(name.as_str());
    text.append("\n\nСистема: ");
    let platform = match &device.platform {
        Some(p) => device_label(p.as_str(), 40),
        None => device_label("Не указана", 40),
    };
    text.append(platform.as_str());
    text.append("\nВерсия: ");
    let os = match &device.os_version {
        Some(v) => device_label(v.as_str(), 40),
        None => device_label("Не указана", 40),
    };
    text.append(os.as_str());
    text.append("\nДобавлено: ");
    let added = device_added_at(device);
    text.append(added.as_str());
    let mut rows: Vec<Vec<Button>> = Vec::new();
    rows.push(row1(callback_button("⬅️ К устройствам", CALLBACK_DEVICES)));
    let k = keyboard(rows);
    assert(k@ =~= seq![seq![cb("⬅️ К устройствам"@, CALLBACK_DEVICES@)]]);
    assert(text@ =~= confirmation_text(*device));
    (text, k)
}

} // verus!

verus! {

/// Pages of a list of `n` devices: at least one.
pub open spec fn page_count(n: int) -> int {
    if n == 0 {
        1
    } else {
        (n + 4) / 5
    }
}

/// The page shown when `page` is asked for: a page past the end shows the
/// last one.
pub open spec fn shown_page(n: int, page: int) -> int {
    if page < page_count(n) - 1 {
        page
    } else {
        page_count(n) - 1
    }
}

/// The index after the last device on the page that starts at `start`.
pub open spec fn page_end(n: int, start: int) -> int {
    if start + 5 < n {
        start + 5
    } else {
        n
    }
}

/// The device limit as shown: 0 is no limit; none is the service's default.
pub open spec fn limit_label(limit: Option<u32>) -> Seq<char> {
    match limit {
        Some(l) => if l == 0 {
            "Без лимита"@
        } else {
            decimal(l as nat)
        },
        None => "По настройкам сервиса"@,
    }
}

/// The lines of the device numbered `number` (from 1).
pub open spec fn entry_text(number: nat, d: HwidDevice) -> Seq<char> {
    "\n"@ + decimal(number) + ". "@ + device_name_of(d) + "\nДобавлено: "@ + added_at_of(d) + "\n"@
}

/// The button of the device numbered `number`, carrying its token.
pub open spec fn entry_row(number: nat, d: HwidDevice) -> Seq<ButtonView> {
    seq![cb(decimal(number) + ". "@ + device_name_of(d), CALLBACK_DEVICE_PREFIX@ + token_of(d))]
}

pub open spec fn entries_text(ds: Seq<HwidDevice>, start: int, end: int) -> Seq<char>
    decreases end - start,
{
    if end <= start {
        Seq::empty()
    } else {
        entries_text(ds, start, end - 1) + entry_text(end as nat, ds[end - 1])
    }
}

pub open spec fn entries_rows(ds: Seq<HwidDevice>, start: int, end: int) -> Seq<Seq<ButtonView>>
    decreases end - start,
{
    if end <= start {
        Seq::empty()
    } else {
        entries_rows(ds, start, end - 1).push(entry_row(end as nat, ds[end - 1]))
    }
}

/// The text of page `page` of the device list.
pub open spec fn devices_text(list: DeviceList, page: int) -> Seq<char> {
    let ds = list.devices@;
    let n = ds.len() as int;
    let p = shown_page(n, page);
    let start = p * 5;
    "📱 Устройства\n\nПодключено: "@ + decimal(n as nat) + "\nЛимит: "@ + limit_label(list.limit)
        + "\n"@ + (if n == 0 {
        "\nУстройств пока нет. Добавьте ссылку подписки в приложение и обновите её."@
    } else {
        "\nВыберите устройство, чтобы посмотреть информацию:\n"@ + entries_text(
            ds,
            start,
            page_end(n, start),
        ) + (if page_count(n) > 1 {
            "\nСтраница "@ + decimal((p + 1) as nat) + " из "@ + decimal(page_count(n) as nat)
        } else {
            Seq::empty()
        })
    })
}

/// The buttons to the neighbouring pages of page `p` of `pages`.
pub open spec fn navigation(p: int, pages: int) -> Seq<ButtonView> {
    (if p > 0 {
        seq![cb("⬅️"@, CALLBACK_DEVICES_PAGE_PREFIX@ + decimal((p - 1) as nat))]
    } else {
        Seq::empty()
    }) + (if p + 1 < pages {
        seq![cb("➡️"@, CALLBACK_DEVICES_PAGE_PREFIX@ + decimal((p + 1) as nat))]
    } else {
        Seq::empty()
    })
}

/// The keyboard of page `page` of the device list: one button per device
/// of the page, the page navigation if any, refresh, and back.
pub open spec fn devices_keyboard(list: DeviceList, page: int) -> Seq<Seq<ButtonView>> {
    let ds = list.devices@;
    let n = ds.len() as int;
    let p = shown_page(n, page);
    let start = p * 5;
    let nav = navigation(p, page_count(n));
    entries_rows(ds, start, page_end(n, start)) + (if nav.len() > 0 {
        seq![nav]
    } else {
        Seq::empty()
    }) + seq![
        seq![cb("🔄 Обновить"@, CALLBACK_DEVICES_PAGE_PREFIX@ + decimal(p as nat))],
        seq![cb("⬅️ К подписке"@, CALLBACK_STATUS@)],
    ]
}

fn limit_text(limit: Option<u32>) -> (s: String)
    ensures
        s@ == limit_label(limit),
{
    match limit {
        Some(l) => {
            if l == 0 {
                String::from_str("Без лимита")
            } else {
                crate::text::decimal_string(l as u64)
            }
        },
        None => String::from_str("По настройкам сервиса"),
    }
}

fn prefixed_number(prefix: &str, n: u64) -> (s: String)
    ensures
        s@ == prefix@ + decimal(n as nat),
{
    let mut s = String::from_str(prefix);
    push_decimal(&mut s, n);
    s
}

fn entry_parts(device: &HwidDevice, number: u64) -> (r: (String, Vec<Button>))
    ensures
        r.0@ == entry_text(number as nat, *device),
        row_view(r.1) == entry_row(number as nat, *device),
        fits_telegram(entry_row(number as nat, *device)[0].2),
{
    let name = device_name(device);
    let mut text = String::from_str("\n");
    push_decimal(&mut text, number);
    text.append(". ");
    text.append(name.as_str());
    text.append("\nДобавлено: ");
    let added = device_added_at(device);
    text.append(added.as_str());
    text.append("\n");
    let mut label_text = crate::text::decimal_string(number);
    label_text.append(". ");
    label_text.append(name.as_str());
    let token = device_token(device);
    let data = crate::text::concat2(CALLBACK_DEVICE_PREFIX, token.as_str());
    proof {
        lemma_ascii_concat_fits(CALLBACK_DEVICE_PREFIX@, token@);
    }
    let row = row1(callback_button_owned(label_text, data));
    assert(text@ =~= entry_text(number as nat, *device));
    assert(row_view(row) =~= entry_row(number as nat, *device));
    (text, row)
}

/// Appends the devices from `start` to `end` to the text and the rows.
fn push_entries(
    text: &mut String,
    rows: &mut Vec<Vec<Button>>,
    devices: &Vec<HwidDevice>,
    start: usize,
    end: usize,
)
    requires
        start <= end <= devices@.len(),
    ensures
        final(text)@ == old(text)@ + entries_text(devices@, start as int, end as int),
        final(rows)@.map_values(|r: Vec<Button>| row_view(r)) == old(rows)@.map_values(
            |r: Vec<Button>| row_view(r),
        ) + entries_rows(devices@, start as int, end as int),
        forall|i: int|
            start <= i < end ==> fits_telegram(
                #[trigger] entry_row((i + 1) as nat, devices@[i])[0].2,
            ),
{
    let ghost text0 = text@;
    let ghost rows0 = rows@.map_values(|r: Vec<Button>| row_view(r));
    let mut index = start;
    assert(text@ =~= text0 + entries_text(devices@, start as int, start as int));
    assert(rows@.map_values(|r: Vec<Button>| row_view(r)) =~= rows0 + entries_rows(
        devices@,
        start as int,
        start as int,
    ));
    while index < end
        invariant
            start <= index <= end <= devices@.len(),
            text@ == text0 + entries_text(devices@, start as int, index as int),
            rows@.map_values(|r: Vec<Button>| row_view(r)) == rows0 + entries_rows(
                devices@,
                start as int,
                index as int,
            ),
            forall|i: int|
                start <= i < index ==> fits_telegram(
                    #[trigger] entry_row((i + 1) as nat, devices@[i])[0].2,
                ),
        decreases end - index,
    {
        let (t, row) = entry_parts(&devices[index], index as u64 + 1);
        text.append(t.as_str());
        let ghost before = rows@;
        rows.push(row);
        proof {
            assert(rows@.map_values(|r: Vec<Button>| row_view(r)) =~= before.map_values(
                |r: Vec<Button>| row_view(r),
            ).push(row_view(row)));
            assert(text@ =~= text0 + entries_text(devices@, start as int, index + 1));
            assert(rows@.map_values(|r: Vec<Button>| row_view(r)) =~= rows0 + entries_rows(
                devices@,
                start as int,
                index + 1,
            ));
        }
        index = index + 1;
    }
}

fn navigation_buttons(p: usize, pages: usize) -> (r: Vec<Button>)
    requires
        p < pages,
    ensures
        row_view(r) == navigation(p as int, pages as int),
{
    let mut row: Vec<Button> = Vec::new();
    if p > 0 {
        row.push(
            callback_button_owned(
                String::from_str("⬅️"),
                prefixed_number(CALLBACK_DEVICES_PAGE_PREFIX, (p - 1) as u64),
            ),
        );
    }
    if p + 1 < pages {
        row.push(
            callback_button_owned(
                String::from_str("➡️"),
                prefixed_number(CALLBACK_DEVICES_PAGE_PREFIX, (p + 1) as u64),
            ),
        );
    }
    assert(row_view(row) =~= navigation(p as int, pages as int));
    row
}

/// Adds the navigation (when there is any), refresh and back rows.
fn finish_devices_keyboard(rows: Vec<Vec<Button>>, p: usize, pages: usize) -> (k: Keyboard)
    requires
        p < pages,
    ensures
        k@ == rows@.map_values(|r: Vec<Button>| row_view(r)) + (if navigation(
            p as int,
            pages as int,
        ).len() > 0 {
            seq![navigation(p as int, pages as int)]
        } else {
            Seq::empty()
        }) + seq![
            seq![cb("🔄 Обновить"@, CALLBACK_DEVICES_PAGE_PREFIX@ + decimal(p as nat))],
            seq![cb("⬅️ К подписке"@, CALLBACK_STATUS@)],
        ],
{
    let ghost v0 = rows@.map_values(|r: Vec<Button>| row_view(r));
    let mut rows = rows;
    let nav = navigation_buttons(p, pages);
    let ghost nav_view = row_view(nav);
    if nav.len() > 0 {
        rows.push(nav);
    }
    let ghost v1 = rows@.map_values(|r: Vec<Button>| row_view(r));
    assert(v1 =~= v0 + (if nav_view.len() > 0 {
        seq![nav_view]
    } else {
        Seq::empty()
    }));
    let refresh = row1(
        callback_button_owned(
            String::from_str("🔄 Обновить"),
            prefixed_number(CALLBACK_DEVICES_PAGE_PREFIX, p as u64),
        ),
    );
    rows.push(refresh);
    let back = row1(callback_button("⬅️ К подписке", CALLBACK_STATUS));
    rows.push(back);
    let k = keyboard(rows);
    assert(k@ =~= v1 + seq![row_view(refresh), row_view(back)]);
    k
}

/// The number of pages and the page shown.
fn page_of(n: usize, page: usize) -> (r: (usize, usize))
    ensures
        r.0 == page_count(n as int),
        r.1 == shown_page(n as int, page as int),
        r.1 < r.0,
        r.1 * 5 <= n,
{
    let pages: usize = if n == 0 {
        1
    } else {
        n / 5 + if n % 5 == 0 {
            0
        } else {
            1
        }
    };
    assert(pages == page_count(n as int)) by (nonlinear_arith)
        requires
            pages == (if n == 0 { 1 } else { n / 5 + if n % 5 == 0 { 0int } else { 1int } }),
    ;
    let p = if page < pages - 1 {
        page
    } else {
        pages - 1
    };
    assert(p * 5 <= n) by (nonlinear_arith)
        requires
            p <= pages - 1,
            pages == page_count(n as int),
    ;
    (pages, p)
}

fn devices_head(n: usize, limit: Option<u32>) -> (s: String)
    ensures
        s@ == "📱 Устройства\n\nПодключено: "@ + decimal(n as nat) + "\nЛимит: "@ + limit_label(limit)
            + "\n"@,
{
    let mut text = String::from_str("📱 Устройства\n\nПодключено: ");
    push_decimal(&mut text, n as u64);
    text.append("\nЛимит: ");
    let l = limit_text(limit);
    text.append(l.as_str());
    text.append("\n");
    text
}

fn page_footer(text: &mut String, p: usize, pages: usize)
    requires
        p < pages,
    ensures
        final(text)@ == old(text)@ + (if pages > 1 {
            "\nСтраница "@ + decimal((p + 1) as nat) + " из "@ + decimal(pages as nat)
        } else {
            Seq::empty()
        }),
{
    if pages > 1 {
        text.append("\nСтраница ");
        push_decimal(text, p as u64 + 1);
        text.append(" из ");
        push_decimal(text, pages as u64);
    }
}

/// One page of the device list, five devices a page, numbered across pages;
/// a page past the end shows the last page.
pub fn devices_screen(list: &DeviceList, page: usize) -> (r: (String, Keyboard))
    ensures
        r.0@ == devices_text(*list, page as int),
        r.1@ == devices_keyboard(*list, page as int),
        forall|i: int, j: int|
            0 <= i < r.1@.len() && 0 <= j < r.1@[i].len() ==> fits_telegram(
                #[trigger] r.1@[i][j].2,
            ),
{
    let n = list.devices.len();
    let (pages, p) = page_of(n, page);
    let start = p * 5;
    let end = if start + 5 < n {
        start + 5
    } else {
        n
    };
    let mut text = devices_head(n, list.limit);
    let ghost head = text@;
    let mut rows: Vec<Vec<Button>> = Vec::new();
    if n == 0 {
        text.append("\nУстройств пока нет. Добавьте ссылку подписки в приложение и обновите её.");
    } else {
        text.append("\nВыберите устройство, чтобы посмотреть информацию:\n");
        push_entries(&mut text, &mut rows, &list.devices, start, end);
        page_footer(&mut text, p, pages);
    }
    assert(text@ =~= devices_text(*list, page as int));
    assert(rows@.map_values(|r: Vec<Button>| row_view(r)) =~= entries_rows(
        list.devices@,
        start as int,
        end as int,
    ));
    let k = finish_devices_keyboard(rows, p, pages);
    proof {
        lemma_keyboard_fits(*list, page as int);
    }
    (text, k)
}

} // verus!

verus! {

proof fn lemma_entries_rows(ds: Seq<HwidDevice>, start: int, end: int)
    requires
        0 <= start <= end,
    ensures
        entries_rows(ds, start, end).len() == end - start,
        forall|i: int|
            start <= i < end ==> #[trigger] entries_rows(ds, start, end)[i - start] == entry_row(
                (i + 1) as nat,
                ds[i],
            ),
    decreases end - start,
{
    if end > start {
        lemma_entries_rows(ds, start, end - 1);
    }
}

/// A page asked for past the end shows the last page, so a button of a list
/// that has since shrunk still leads somewhere.
pub proof fn law_stale_page_shows_last_page(list: DeviceList, page: int)
    requires
        page >= page_count(list.devices@.len() as int) - 1,
    ensures
        devices_text(list, page) == devices_text(list, page_count(list.devices@.len() as int) - 1),
        devices_keyboard(list, page) == devices_keyboard(
            list,
            page_count(list.devices@.len() as int) - 1,
        ),
{
}

/// Every device can be reached: device `i` has its button, with its token,
/// on page `i / 5`, and a page holds at most five devices.
pub proof fn law_every_device_reachable(list: DeviceList, i: int)
    requires
        0 <= i < list.devices@.len(),
    ensures
        devices_keyboard(list, i / 5).contains(entry_row((i + 1) as nat, list.devices@[i])),
        entry_row((i + 1) as nat, list.devices@[i])[0].2 == CALLBACK_DEVICE_PREFIX@ + token_of(
            list.devices@[i],
        ),
{
    let n = list.devices@.len() as int;
    let p = i / 5;
    assert(p < page_count(n)) by (nonlinear_arith)
        requires
            0 <= i < n,
            p == i / 5,
            page_count(n) == (n + 4) / 5,
    ;
    assert(shown_page(n, p) == p);
    let start = p * 5;
    assert(start <= i < start + 5) by (nonlinear_arith)
        requires
            p == i / 5,
            start == p * 5,
            0 <= i,
    ;
    let end = page_end(n, start);
    lemma_entries_rows(list.devices@, start, end);
    let rows = entries_rows(list.devices@, start, end);
    let kb = devices_keyboard(list, p);
    assert(kb[i - start] == rows[i - start]);
}

/// A page shows at most five devices.
pub proof fn law_page_holds_at_most_five(list: DeviceList, page: int)
    requires
        page >= 0,
    ensures
        ({
            let n = list.devices@.len() as int;
            let start = shown_page(n, page) * 5;
            entries_rows(list.devices@, start, page_end(n, start)).len() <= 5
        }),
{
    let n = list.devices@.len() as int;
    let p = shown_page(n, page);
    assert(p >= 0) by (nonlinear_arith)
        requires
            p == shown_page(n, page),
            page >= 0,
            n >= 0,
    ;
    let start = p * 5;
    assert(start <= n) by (nonlinear_arith)
        requires
            p == shown_page(n, page),
            p >= 0,
            start == p * 5,
            n >= 0,
    ;
    lemma_entries_rows(list.devices@, start, page_end(n, start));
}

} // verus!

verus! {

proof fn lemma_hex_ascii(bytes: Seq<u8>)
    ensures
        vstd::utf8::is_ascii_chars(crate::text::hex(bytes)),
        crate::text::hex(bytes).len() == 2 * bytes.len(),
    decreases bytes.len(),
{
    crate::text::lemma_hex_len(bytes);
    if bytes.len() > 0 {
        lemma_hex_ascii(bytes.drop_last());
        let b = bytes.last();
        let h = crate::text::hex(bytes);
        let prev = crate::text::hex(bytes.drop_last());
        assert(h == prev + crate::text::byte_hex(b));
        assert forall|i: int| 0 <= i < h.len() implies '\0' <= #[trigger] h[i] <= '\u{7f}' by {
            if i < prev.len() {
                assert(h[i] == prev[i]);
            } else {
                let d = if i == prev.len() { b as nat / 16 } else { b as nat % 16 };
                assert(h[i] == crate::text::hex_digit(d));
            }
        }
    }
}

proof fn lemma_decimal_ascii(n: nat)
    ensures
        vstd::utf8::is_ascii_chars(decimal(n)),
    decreases n,
{
    let d = decimal(n);
    if n >= 10 {
        lemma_decimal_ascii(n / 10);
        assert forall|i: int| 0 <= i < d.len() implies '\0' <= #[trigger] d[i] <= '\u{7f}' by {
            if i < d.len() - 1 {
                assert(d[i] == decimal(n / 10)[i]);
            }
        }
    }
}

/// The callback data of a device's button fits Telegram's limit of 64
/// bytes, however long the device's HWID or name: it is `device:` and the
/// 32 hexadecimal digits of its token, 39 ASCII bytes.
pub proof fn law_device_button_fits(digest: Seq<u8>)
    requires
        digest.len() >= 16,
    ensures
        vstd::utf8::encode_utf8(CALLBACK_DEVICE_PREFIX@ + crate::text::hex(digest.take(16))).len()
            == 39,
{
    reveal_strlit("device:");
    let data = CALLBACK_DEVICE_PREFIX@ + crate::text::hex(digest.take(16));
    lemma_hex_ascii(digest.take(16));
    assert(vstd::utf8::is_ascii_chars(data));
    vstd::utf8::is_ascii_chars_encode_utf8(data);
}

/// The callback data of a page button fits Telegram's limit of 64 bytes:
/// `devices_page:` and at most twenty digits.
pub proof fn law_page_button_fits(page: u64)
    ensures
        vstd::utf8::encode_utf8(CALLBACK_DEVICES_PAGE_PREFIX@ + decimal(page as nat)).len() <= 33,
{
    reveal_strlit("devices_page:");
    let data = CALLBACK_DEVICES_PAGE_PREFIX@ + decimal(page as nat);
    lemma_decimal_ascii(page as nat);
    crate::text::lemma_u64_decimal_len(page);
    assert(vstd::utf8::is_ascii_chars(data));
    vstd::utf8::is_ascii_chars_encode_utf8(data);
}

} // verus!

verus! {

/// Telegram takes callback data of at most 64 bytes.
pub open spec fn fits_telegram(data: Seq<char>) -> bool {
    vstd::utf8::encode_utf8(data).len() <= 64
}

proof fn lemma_ascii_concat_fits(a: Seq<char>, b: Seq<char>)
    requires
        vstd::utf8::is_ascii_chars(b),
        b.len() == 32,
        a == CALLBACK_DEVICE_PREFIX@,
    ensures
        fits_telegram(a + b),
{
    reveal_strlit("device:");
    let d = a + b;
    assert forall|i: int| 0 <= i < d.len() implies '\0' <= #[trigger] d[i] <= '\u{7f}' by {
        if i >= a.len() {
            assert(d[i] == b[i - a.len()]);
        }
    }
    vstd::utf8::is_ascii_chars_encode_utf8(d);
}

/// Every callback data of the device list's keyboard fits Telegram's limit,
/// given that the buttons of the page's devices do.
proof fn lemma_keyboard_fits(list: DeviceList, page: int)
    requires
        page >= 0,
        list.devices@.len() <= usize::MAX,
        ({
            let n = list.devices@.len() as int;
            let start = shown_page(n, page) * 5;
            forall|i: int|
                start <= i < page_end(n, start) ==> fits_telegram(
                    #[trigger] entry_row((i + 1) as nat, list.devices@[i])[0].2,
                )
        }),
    ensures
        ({
            let kb = devices_keyboard(list, page);
            forall|i: int, j: int|
                0 <= i < kb.len() && 0 <= j < kb[i].len() ==> fits_telegram(#[trigger] kb[i][j].2)
        }),
{
    let ds = list.devices@;
    let n = ds.len() as int;
    let p = shown_page(n, page);
    let pages = page_count(n);
    assert(0 <= p < pages) by (nonlinear_arith)
        requires
            p == shown_page(n, page),
            pages == page_count(n),
            page >= 0,
            n >= 0,
    ;
    assert(pages <= n / 5 + 1) by (nonlinear_arith)
        requires
            pages == page_count(n),
            n >= 0,
    ;
    let start = p * 5;
    assert(start <= n) by (nonlinear_arith)
        requires
            p == shown_page(n, page),
            p >= 0,
            start == p * 5,
            n >= 0,
    ;
    let end = page_end(n, start);
    lemma_entries_rows(ds, start, end);
    let rows = entries_rows(ds, start, end);
    let nav = navigation(p, pages);
    let navpart: Seq<Seq<ButtonView>> = if nav.len() > 0 {
        seq![nav]
    } else {
        Seq::empty()
    };
    let tail = seq![
        seq![cb("🔄 Обновить"@, CALLBACK_DEVICES_PAGE_PREFIX@ + decimal(p as nat))],
        seq![cb("⬅️ К подписке"@, CALLBACK_STATUS@)],
    ];
    let kb = devices_keyboard(list, page);
    assert(kb == rows + navpart + tail);
    law_page_button_fits(p as u64);
    if p > 0 {
        law_page_button_fits((p - 1) as u64);
    }
    if p + 1 < pages {
        law_page_button_fits((p + 1) as u64);
    }
    reveal_strlit("status");
    assert(vstd::utf8::is_ascii_chars(CALLBACK_STATUS@));
    vstd::utf8::is_ascii_chars_encode_utf8(CALLBACK_STATUS@);
    assert forall|i: int, j: int|
        0 <= i < kb.len() && 0 <= j < kb[i].len() implies fits_telegram(#[trigger] kb[i][j].2) by {
        if i < rows.len() {
            assert(kb[i] == rows[i]);
            assert(rows[(start + i) - start] == entry_row((start + i + 1) as nat, ds[start + i]));
            assert(fits_telegram(entry_row((start + i + 1) as nat, ds[start + i])[0].2));
        } else if i < rows.len() + navpart.len() {
            assert(kb[i] == nav);
        } else {
            assert(kb[i] == tail[i - rows.len() - navpart.len()]);
        }
    }
}

} // verus!

verus! {

/// The device list can always be paged through: on every page shown, the
/// keyboard holds a button to the next page when there is one, and a
/// button to the previous page when there is one.
pub proof fn law_neighbour_pages_reachable(list: DeviceList, page: int)
    requires
        page >= 0,
    ensures
        ({
            let n = list.devices@.len() as int;
            let p = shown_page(n, page);
            let kb = devices_keyboard(list, page);
            &&& p + 1 < page_count(n) ==> exists|i: int, j: int|
                0 <= i < kb.len() && 0 <= j < kb[i].len() && (#[trigger] kb[i][j]).2
                    == CALLBACK_DEVICES_PAGE_PREFIX@ + decimal((p + 1) as nat)
            &&& p > 0 ==> exists|i: int, j: int|
                0 <= i < kb.len() && 0 <= j < kb[i].len() && (#[trigger] kb[i][j]).2
                    == CALLBACK_DEVICES_PAGE_PREFIX@ + decimal((p - 1) as nat)
        }),
{
    let ds = list.devices@;
    let n = ds.len() as int;
    let p = shown_page(n, page);
    let pages = page_count(n);
    assert(0 <= p < pages) by (nonlinear_arith)
        requires
            p == shown_page(n, page),
            pages == page_count(n),
            page >= 0,
            n >= 0,
    ;
    let start = p * 5;
    assert(start <= n) by (nonlinear_arith)
        requires
            p == shown_page(n, page),
            p >= 0,
            start == p * 5,
            n >= 0,
    ;
    let end = page_end(n, start);
    lemma_entries_rows(ds, start, end);
    let rows = entries_rows(ds, start, end);
    let nav = navigation(p, pages);
    let navpart: Seq<Seq<ButtonView>> = if nav.len() > 0 {
        seq![nav]
    } else {
        Seq::empty()
    };
    let tail = seq![
        seq![cb("🔄 Обновить"@, CALLBACK_DEVICES_PAGE_PREFIX@ + decimal(p as nat))],
        seq![cb("⬅️ К подписке"@, CALLBACK_STATUS@)],
    ];
    let kb = devices_keyboard(list, page);
    assert(kb == rows + navpart + tail);
    let i = rows.len() as int;
    if p + 1 < pages {
        let j: int = if p > 0 { 1 } else { 0 };
        assert(kb[i] == nav);
        assert(kb[i][j].2 == CALLBACK_DEVICES_PAGE_PREFIX@ + decimal((p + 1) as nat));
    }
    if p > 0 {
        assert(kb[i] == nav);
        assert(kb[i][0].2 == CALLBACK_DEVICES_PAGE_PREFIX@ + decimal((p - 1) as nat));
    }
}

} // verus!
