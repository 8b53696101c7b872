use surreal_bot::components::{
    channel_option, component_action, requires_query_by_default, text_is, ComponentAction,
    OptionValue,
};
use surreal_bot::config::ConfigBuilder;
use surreal_bot::session::{ConnType, Setting};

#[test]
fn text_comparison() {
    assert!(text_is("format", "format"));
    assert!(!text_is("format", "formats"));
    assert!(!text_is("", "x"));
    assert!(text_is("", ""));
}

#[test]
fn panel_updates_need_a_session() {
    assert_eq!(component_action("format", "json", true), ComponentAction::Update(Setting::Json(true)));
    assert_eq!(component_action("format", "sql", true), ComponentAction::Update(Setting::Json(false)));
    assert_eq!(component_action("prettify", "true", true), ComponentAction::Update(Setting::Pretty(true)));
    assert_eq!(
        component_action("require_query", "false", true),
        ComponentAction::Update(Setting::RequireQuery(false))
    );
    assert_eq!(component_action("format", "json", false), ComponentAction::NoSession);
    assert_eq!(component_action("export", "", true), ComponentAction::Export);
    assert_eq!(component_action("stop", "", false), ComponentAction::NoSession);
    assert_eq!(component_action("stop", "", true), ComponentAction::Stop);
}

#[test]
fn panel_other_components() {
    assert_eq!(component_action("big_query", "", true), ComponentAction::BigQuery { copy: false });
    assert_eq!(component_action("copy_big_query", "", true), ComponentAction::BigQuery { copy: true });
    assert_eq!(component_action("reconnect", "", false), ComponentAction::Ignore);
    assert_eq!(component_action("reconnect", "", true), ComponentAction::Unknown);
    assert_eq!(component_action("rename_thread", "", false), ComponentAction::RenameThread);
    assert_eq!(component_action("rename_thread", "", true), ComponentAction::RenameThread);
    assert_eq!(component_action("nope", "", true), ComponentAction::Unknown);
}

#[test]
fn channel_options_by_name() {
    assert_eq!(channel_option("pretty", true), Some(Setting::Pretty(true)));
    assert_eq!(channel_option("json", false), Some(Setting::Json(false)));
    assert_eq!(channel_option("require_query", true), Some(Setting::RequireQuery(true)));
    assert_eq!(channel_option("ttl", true), None);
}

#[test]
fn server_options_by_name() {
    let mut b = ConfigBuilder::empty();
    b.set_option("active", OptionValue::Channel(5));
    b.set_option("archive", OptionValue::Channel(6));
    b.set_option("ttl", OptionValue::Seconds(90));
    b.set_option("pretty", OptionValue::Flag(true));
    b.set_option("json", OptionValue::Flag(false));
    b.set_option("other", OptionValue::Flag(true));
    b.set_option("ttl", OptionValue::Flag(true));
    assert_eq!(b.active_channel, Some(5));
    assert_eq!(b.archive_channel, Some(6));
    assert_eq!(b.ttl, Some(90_000));
    assert_eq!(b.pretty, Some(true));
    assert_eq!(b.json, Some(false));
    b.set_option("ttl", OptionValue::Seconds(u64::MAX));
    assert_eq!(b.ttl, Some(u64::MAX));
}

#[test]
fn query_requirement_by_kind() {
    assert!(requires_query_by_default(ConnType::ConnectedChannel));
    assert!(requires_query_by_default(ConnType::Thread));
    assert!(!requires_query_by_default(ConnType::EphemeralChannel));
}
