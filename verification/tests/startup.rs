use winws_launcher::config::{Config, Mode};
use winws_launcher::startup::{config_created_notice, config_extension, startup, Startup};

#[test]
fn the_default_configuration_selects_the_general_profile() {
    assert_eq!(Config::default(), Config { mode: Mode::General });
}

#[test]
fn an_existing_configuration_is_launched() {
    for mode in [Mode::General, Mode::Beeline, Mode::Mgts] {
        assert_eq!(startup(Some(Config { mode })), Startup::Launch(Config { mode }));
    }
}

#[test]
fn without_a_configuration_the_default_is_created() {
    assert_eq!(startup(None), Startup::CreateConfig(Config { mode: Mode::General }));
}

#[test]
fn the_configuration_file_is_json() {
    assert_eq!(config_extension(), "json");
}

#[test]
fn the_notice_tells_the_user_to_configure_and_restart() {
    assert_eq!(
        config_created_notice(),
        "Конфигурационный файл создан. Пожалуйста, настройте его и перезапустите приложение."
    );
}

#[test]
fn modes_are_distinct() {
    assert_ne!(Mode::General, Mode::Beeline);
    assert_ne!(Mode::General, Mode::Mgts);
    assert_ne!(Mode::Beeline, Mode::Mgts);
}
