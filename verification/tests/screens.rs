use vpn_bot_tg::bot::{
    format_datetime, route_callback, status_icon, status_screen, subscription_text, trial_screen,
    CallbackRoute, StatusEntry,
};
use vpn_bot_tg::config::{ServiceConfig, TrialConfig};
use vpn_bot_tg::database::{Order, Payment};
use vpn_bot_tg::remnawave::{HwidDevice, RemnawaveUser, UserTraffic};
use vpn_bot_tg::tariff::{Tariff, TariffCatalog};
use vpn_bot_tg::time::Instant;
use vpn_bot_tg::trial::TrialIssueResult;
use vpn_bot_tg::ui::{
    about_keyboard, about_text, back_keyboard, devices_back_keyboard, status_keyboard, checkout_keyboard, checkout_text, device_added_at,
    device_confirmation_screen, device_label, device_name, documents_keyboard, documents_text,
    home_keyboard, home_text, order_keyboard, order_text, support_keyboard, support_text,
    tariff_keyboard, tariff_text, tariffs_keyboard, tariffs_text, trial_keyboard, Button,
    ButtonKind, Keyboard,
};

const T: Instant = Instant { secs: 1_700_000_000, nanos: 0 };

fn service() -> ServiceConfig {
    ServiceConfig {
        support_telegram_url: "https://t.me/support".to_string(),
        support_email: "help@example.com".to_string(),
        phone: None,
        contact_address: None,
        docs_url: "https://docs.example/".to_string(),
        user_agreement_url: "https://docs.example/terms".to_string(),
        privacy_url: "https://docs.example/privacy".to_string(),
    }
}

fn trial() -> TrialConfig {
    TrialConfig { days: 3, traffic_gib: 10, hwid_limit: 2, internal_squad_name: "Trial".to_string() }
}

fn tariff(code: &str, traffic_gib: Option<u64>) -> Tariff {
    Tariff {
        code: code.to_string(),
        name: "Месяц".to_string(),
        description: "Доступ на месяц".to_string(),
        price_kopecks: 299_50,
        duration_days: 30,
        traffic_gib,
        hwid_limit: 3,
        internal_squad_names: vec!["Default".to_string()],
        is_active: true,
        sort_order: 0,
    }
}

fn order() -> Order {
    Order {
        id: 11,
        telegram_id: 42,
        tariff_code: "month".to_string(),
        tariff_name: "Месяц".to_string(),
        tariff_description: "Доступ на месяц".to_string(),
        price_kopecks: 299_50,
        currency: "RUB".to_string(),
        duration_days: 30,
        traffic_gib: None,
        hwid_limit: 3,
        internal_squad_names: vec!["Default".to_string()],
        status: "pending".to_string(),
        created_at: T,
        updated_at: T,
    }
}

fn payment(url: Option<&str>) -> Payment {
    Payment {
        id: 5,
        order_id: 11,
        provider: "platega".to_string(),
        provider_payment_id: Some("tx".to_string()),
        idempotency_key: "order:11:platega".to_string(),
        amount_kopecks: 299_50,
        currency: "RUB".to_string(),
        status: "pending".to_string(),
        payment_url: url.map(str::to_string),
        created_at: T,
        updated_at: T,
        paid_at: None,
    }
}

fn device() -> HwidDevice {
    HwidDevice {
        user_id: 7,
        hwid: "hwid".to_string(),
        platform: Some("Android".to_string()),
        os_version: Some("16".to_string()),
        device_model: Some("Pixel".to_string()),
        user_agent: None,
        created_at: "2026-09-16T10:20:30Z".to_string(),
        updated_at: "2026-09-16T11:00:00Z".to_string(),
    }
}

fn user(username: &str, url: &str) -> RemnawaveUser {
    RemnawaveUser {
        id: 7,
        username: username.to_string(),
        status: "ACTIVE".to_string(),
        traffic_limit_bytes: 0,
        expire_at: "2026-10-01T12:30:00+03:00".to_string(),
        telegram_id: Some(42),
        hwid_device_limit: None,
        subscription_url: url.to_string(),
        tag: Some("TRIAL".to_string()),
        user_traffic: UserTraffic {
            used_traffic_bytes: 0,
            lifetime_used_traffic_bytes: 0,
            online_at: None,
            first_connected_at: None,
        },
    }
}

/// A button as (label, callback data or URL, whether it opens a URL).
fn plain(b: &Button) -> (String, String, bool) {
    match &b.kind {
        ButtonKind::Callback(d) => (b.text.clone(), d.clone(), false),
        ButtonKind::Url(u) => (b.text.clone(), u.clone(), true),
    }
}

fn rows(k: &Keyboard) -> Vec<Vec<(String, String, bool)>> {
    k.rows.iter().map(|r| r.iter().map(plain).collect()).collect()
}

fn cb(text: &str, data: &str) -> (String, String, bool) {
    (text.to_string(), data.to_string(), false)
}

fn link(text: &str, url: &str) -> (String, String, bool) {
    (text.to_string(), url.to_string(), true)
}

#[test]
fn home_screen() {
    assert_eq!(
        home_text(),
        "🛡 SilentOkVPN\n\nПанель управления вашей VPN-подпиской.\n\nВыберите действие:"
    );
    assert_eq!(
        rows(&home_keyboard()),
        vec![
            vec![cb("📋 Моя подписка", "status")],
            vec![cb("📱 Устройства", "devices")],
            vec![cb("💳 Купить подписку", "buy")],
            vec![cb("🎁 Попробовать бесплатно", "trial")],
            vec![cb("🔑 Ссылка", "subscription"), cb("ℹ️ О сервисе", "about")],
            vec![cb("🆘 Поддержка", "support"), cb("📄 Документы", "documents")],
        ]
    );
    assert_eq!(rows(&back_keyboard()), vec![vec![cb("⬅️ Назад", "home")]]);
}

#[test]
fn tariff_screens() {
    let empty = TariffCatalog::new(Vec::new()).unwrap();
    assert_eq!(tariffs_text(&empty), "💳 Тарифы\n\nСейчас нет доступных тарифов.");
    assert_eq!(rows(&tariffs_keyboard(&empty)), vec![vec![cb("⬅️ Назад", "home")]]);

    let catalog = TariffCatalog::new(vec![tariff("month", Some(100))]).unwrap();
    assert!(tariffs_text(&catalog).starts_with("💳 Тарифы\n\nВыберите подходящий вариант."));
    assert_eq!(
        rows(&tariffs_keyboard(&catalog)),
        vec![vec![cb("Месяц — 299 ₽", "tariff:month")], vec![cb("⬅️ Назад", "home")]]
    );

    assert_eq!(
        tariff_text(&tariff("month", Some(100))),
        "💳 Месяц\n\nДоступ на месяц\n\n💰 Цена: 299 ₽\n📅 Срок доступа: 30 дней\n\
         📊 Трафик: 100 GiB\n📱 Устройств: до 3\n\nДоступ активируется после подтверждения оплаты."
    );
    assert!(tariff_text(&tariff("month", None)).contains("📊 Трафик: Без лимита\n"));
    assert_eq!(
        rows(&tariff_keyboard(&tariff("month", None), &service())),
        vec![
            vec![cb("Продолжить оформление", "checkout:month")],
            vec![
                link("📜 Соглашение", "https://docs.example/terms"),
                link("🔐 Конфиденциальность", "https://docs.example/privacy"),
            ],
            vec![link("📚 Все документы", "https://docs.example/")],
            vec![cb("⬅️ К тарифам", "buy")],
            vec![cb("🏠 Главное меню", "home")],
        ]
    );
    assert!(checkout_text(&tariff("month", None))
        .starts_with("🧾 Оформление заказа\n\nТариф: Месяц\nСумма: 299 ₽\nСрок доступа: 30 дней\n\n"));
    assert_eq!(rows(&checkout_keyboard(&service())).len(), 4);
}

#[test]
fn order_screens_offer_payment_only_with_a_link() {
    let with_link = payment(Some("https://pay.example/tx"));
    assert_eq!(
        order_text(&order(), Some(&with_link)),
        "🧾 Заказ #11\n\nТариф: Месяц\nСумма: 299 ₽\nСрок доступа: 30 дней\n\
         Статус: ожидает оплаты\n\nПлатёжная ссылка создана.\nНажмите «Оплатить» ниже."
    );
    assert!(order_text(&order(), None).ends_with(
        "Заказ сохранён.\nПлатёжная ссылка пока недоступна.\nПопробуйте снова немного позже."
    ));
    let k = rows(&order_keyboard(&service(), &order(), Some(&with_link)));
    assert_eq!(k[0], vec![link("💳 Оплатить", "https://pay.example/tx")]);
    assert_eq!(k.len(), 4);
    for p in [None, Some(payment(None)), Some(payment(Some("not a url")))] {
        let k = rows(&order_keyboard(&service(), &order(), p.as_ref()));
        assert_eq!(k[0], vec![cb("🔄 Попробовать снова", "checkout:month")]);
        assert_eq!(k[3], vec![cb("🏠 Главное меню", "home")]);
    }
}

#[test]
fn support_and_documents_screens() {
    assert_eq!(
        support_text(&service()),
        "🆘 Поддержка и контакты\n\nTelegram: https://t.me/support\nE-mail: help@example.com\n\n\
         По вопросам работы сервиса, оплаты и возврата обращайтесь в поддержку."
    );
    let mut full = service();
    full.phone = Some("+7 900".to_string());
    full.contact_address = Some("Москва".to_string());
    assert!(support_text(&full).contains("help@example.com\nТелефон: +7 900\nАдрес: Москва\n\n"));
    assert_eq!(
        rows(&support_keyboard(&service())),
        vec![
            vec![link("Написать в Telegram", "https://t.me/support")],
            vec![cb("📄 Документы", "documents")],
            vec![cb("⬅️ Назад", "home")],
        ]
    );
    assert!(documents_text().starts_with("📄 Документы SilentOkVPN\n\n"));
    assert_eq!(rows(&documents_keyboard(&service())).len(), 4);
}

#[test]
fn about_screen_shows_the_trial() {
    assert!(about_text(&trial())
        .ends_with("🎁 Пробная подписка:\n📅 Срок: 3 дн.\n📊 Трафик: 10 GiB\n📱 Устройства: до 2"));
}

#[test]
fn device_labels_drop_control_characters_and_are_cut() {
    assert_eq!(device_label("a\nb\tc", 40), "abc");
    assert_eq!(device_label("Телефон📱", 3), "Тел");
    assert_eq!(device_label("", 5), "");
    assert_eq!(device_name(&device()), "Pixel");
    let mut d = device();
    d.device_model = Some("  ".to_string());
    assert_eq!(device_name(&d), "Android");
    d.platform = None;
    assert_eq!(device_name(&d), "Устройство");
    assert_eq!(device_added_at(&device()), "16.09.2026 10:20 UTC");
    d.created_at = "вчера".to_string();
    assert_eq!(device_added_at(&d), "Не указано");
}

#[test]
fn device_confirmation_screen_shows_the_device() {
    let mut d = device();
    d.os_version = None;
    let (text, keyboard) = device_confirmation_screen(&d);
    assert_eq!(
        text,
        "📱 Pixel\n\nСистема: Android\nВерсия: Не указана\nДобавлено: 16.09.2026 10:20 UTC"
    );
    assert_eq!(rows(&keyboard), vec![vec![cb("⬅️ К устройствам", "devices")]]);
}

#[test]
fn callbacks_are_routed() {
    assert_eq!(route_callback("home"), CallbackRoute::Home);
    assert_eq!(route_callback("status"), CallbackRoute::Status);
    assert_eq!(route_callback("subscription"), CallbackRoute::Subscription);
    assert_eq!(route_callback("about"), CallbackRoute::About);
    assert_eq!(route_callback("trial"), CallbackRoute::Trial);
    assert_eq!(route_callback("tariff:month"), CallbackRoute::Unknown);
}

#[test]
fn dates_and_statuses_are_shown() {
    assert_eq!(format_datetime("2026-10-01T12:30:00+03:00"), "01.10.2026 09:30 UTC");
    assert_eq!(format_datetime("never"), "never");
    assert_eq!(status_icon("ACTIVE"), "🟢");
    assert_eq!(status_icon("DISABLED"), "🔴");
    assert_eq!(status_icon("LIMITED"), "🟠");
    assert_eq!(status_icon("EXPIRED"), "⚫");
    assert_eq!(status_icon("other"), "⚪");
}

#[test]
fn trial_outcomes_have_their_screens() {
    let created = TrialIssueResult::Created(user("trial_42", "https://s"));
    let (text, with_keyboard) = trial_screen(&trial(), Some(&created));
    assert_eq!(
        text,
        "🎉 Пробная подписка активирована!\n\n📅 Срок: 3 дн.\n📊 Трафик: 10 GiB\n\
         📱 Устройства: до 2\n⏳ Действует до: 01.10.2026 09:30 UTC\n\n\
         Теперь можно получить ссылку для подключения."
    );
    assert!(with_keyboard);
    assert_eq!(rows(&trial_keyboard()).len(), 3);
    let (text, with_keyboard) = trial_screen(&trial(), Some(&TrialIssueResult::AlreadyUsed));
    assert!(text.starts_with("🎁 Пробный период уже был использован."));
    assert!(!with_keyboard);
    let (text, _) = trial_screen(&trial(), Some(&TrialIssueResult::Ineligible));
    assert!(text.starts_with("🎁 Пробный период доступен только новым пользователям."));
    let (text, _) = trial_screen(&trial(), Some(&TrialIssueResult::InProgress));
    assert!(text.starts_with("⏳ Пробная подписка уже создаётся."));
    let (text, with_keyboard) = trial_screen(&trial(), None);
    assert!(text.starts_with("⚠️ Не удалось создать пробную подписку."));
    assert!(!with_keyboard);
}

#[test]
fn subscription_links_are_listed() {
    assert_eq!(
        subscription_text(&vec![]),
        "🔑 Ссылка на подписку\n\nАктивная VPN-подписка не найдена."
    );
    assert_eq!(
        subscription_text(&vec![user("a", "https://s/a"), user("b", "https://s/b")]),
        "🔑 Ссылка подписки\n\na\nhttps://s/a\n\nb\nhttps://s/b\n\n\
         ⚠️ Не передавайте эту ссылку другим людям. \
         Она предоставляет доступ к вашей VPN-подписке."
    );
}

#[test]
fn status_screen_lists_accounts_or_says_there_is_none() {
    let (text, with_keyboard) = status_screen(&vec![]);
    assert_eq!(text, "📋 Подписка\n\nVPN-подписка для вашего Telegram-аккаунта не найдена.");
    assert!(!with_keyboard);

    let unlimited = StatusEntry {
        user: user("a", "https://s/a"),
        used_text: "1.50 GB".to_string(),
        limit_text: "0 B".to_string(),
    };
    let mut limited_user = user("b", "https://s/b");
    limited_user.status = "LIMITED".to_string();
    limited_user.traffic_limit_bytes = 10;
    limited_user.expire_at = "soon".to_string();
    let limited = StatusEntry {
        user: limited_user,
        used_text: "10 B".to_string(),
        limit_text: "10 B".to_string(),
    };
    let (text, with_keyboard) = status_screen(&vec![unlimited, limited]);
    assert_eq!(
        text,
        "📋 Моя подписка\n\
         \n🟢 Статус: ACTIVE\n👤 a\n📅 Действует до: 01.10.2026 09:30 UTC\n\
         📊 Использовано: 1.50 GB\n📦 Лимит: Без лимита\n\
         \n🟠 Статус: LIMITED\n👤 b\n📅 Действует до: soon\n\
         📊 Использовано: 10 B\n📦 Лимит: 10 B\n"
    );
    assert!(with_keyboard);
}

#[test]
fn navigation_keyboards() {
    assert_eq!(
        rows(&about_keyboard()),
        vec![
            vec![cb("🆘 Поддержка", "support"), cb("📄 Документы", "documents")],
            vec![cb("⬅️ Назад", "home")],
        ]
    );
    assert_eq!(
        rows(&devices_back_keyboard()),
        vec![vec![cb("📱 К устройствам", "devices")], vec![cb("🏠 Главное меню", "home")]]
    );
    assert_eq!(
        rows(&status_keyboard()),
        vec![
            vec![cb("🔄 Обновить", "status")],
            vec![cb("🔑 Получить ссылку", "subscription")],
            vec![cb("📱 Устройства", "devices")],
            vec![cb("⬅️ Назад", "home")],
        ]
    );
}
