use hudwiz::frontend::config_service::{ComponentType, LayoutConfig, RegionConfig, UiConfig};
use hudwiz::frontend::state_service::{AppAction, AppState, Author, ContentType, Conversation, Message};

fn layout(regions: &[(&str, ComponentType)]) -> UiConfig {
    UiConfig {
        layout: LayoutConfig {
            regions: regions
                .iter()
                .map(|(name, component)| (name.to_string(), RegionConfig { component: *component }))
                .collect(),
        },
    }
}

#[test]
fn default_state_is_the_starting_screen() {
    let state = AppState::default();
    assert_eq!(state.theme, "dark");
    assert_eq!(state.title, "hudwiz");
    assert_eq!(state.selected_pattern_title, "hudwiz");
    assert_eq!(state.background_pattern, "default");
    assert!(state.sidebar_left_collapsed);
    assert!(state.sidebar_right_collapsed);
    assert!(state.hud_top_left_collapsed);
    assert!(state.hud_top_right_collapsed);
    assert!(state.hud_bottom_left_collapsed);
    assert!(state.hud_bottom_right_collapsed);
    assert!(!state.activity_bar_collapsed);
    assert_eq!(state.background_content, ContentType::AnimatedSvg);
    assert_eq!(
        state.main_content,
        ContentType::Image("/static/images/background_content.jpg".to_string())
    );
    assert!(state.config.is_none());
    assert_eq!(state.conversation, Conversation { messages: vec![] });
    assert_eq!(state.conversation, Conversation::default());
    assert_eq!(state.language, "en-US");
}

#[test]
fn setters_change_the_field_they_name() {
    let state = AppState::default()
        .reduce(AppAction::SetTheme("light".to_string()))
        .reduce(AppAction::SetTitle("Title".to_string()))
        .reduce(AppAction::SetSelectedPatternTitle("Pattern".to_string()))
        .reduce(AppAction::SetBackgroundPattern("dots".to_string()))
        .reduce(AppAction::SetLanguage("es-ES".to_string()))
        .reduce(AppAction::SetBackgroundContent(ContentType::SolidColor("grey".to_string())))
        .reduce(AppAction::SetMainContent(ContentType::TransparentSvg));
    assert_eq!(state.theme, "light");
    assert_eq!(state.title, "Title");
    assert_eq!(state.selected_pattern_title, "Pattern");
    assert_eq!(state.background_pattern, "dots");
    assert_eq!(state.language, "es-ES");
    assert_eq!(state.background_content, ContentType::SolidColor("grey".to_string()));
    assert_eq!(state.main_content, ContentType::TransparentSvg);
    assert!(state.sidebar_left_collapsed && !state.activity_bar_collapsed);
    assert!(state.conversation.messages.is_empty());
}

#[test]
fn toggles_flip_one_flag_each() {
    let flags = |s: &AppState| {
        [
            s.sidebar_left_collapsed,
            s.sidebar_right_collapsed,
            s.hud_top_left_collapsed,
            s.hud_top_right_collapsed,
            s.hud_bottom_left_collapsed,
            s.hud_bottom_right_collapsed,
            s.activity_bar_collapsed,
        ]
    };
    let actions: [fn() -> AppAction; 7] = [
        || AppAction::ToggleSidebarLeft,
        || AppAction::ToggleSidebarRight,
        || AppAction::ToggleHudTopLeft,
        || AppAction::ToggleHudTopRight,
        || AppAction::ToggleHudBottomLeft,
        || AppAction::ToggleHudBottomRight,
        || AppAction::ToggleActivityBar,
    ];
    let start = flags(&AppState::default());
    assert_eq!(start, [true, true, true, true, true, true, false]);
    for (i, action) in actions.iter().enumerate() {
        let once = AppState::default().reduce(action());
        let mut expected = start;
        expected[i] = !expected[i];
        assert_eq!(flags(&once), expected);
        assert_eq!(flags(&once.reduce(action())), start);
    }
}

#[test]
fn chat_messages_are_numbered_by_their_place() {
    let state = AppState::default()
        .reduce(AppAction::SendChatMessage("first".to_string()))
        .reduce(AppAction::ToggleSidebarLeft)
        .reduce(AppAction::SendChatMessage("second".to_string()))
        .reduce(AppAction::SendChatMessage(String::new()));
    assert_eq!(
        state.conversation.messages,
        vec![
            Message { id: 0, author: Author::User, text: "first".to_string() },
            Message { id: 1, author: Author::User, text: "second".to_string() },
            Message { id: 2, author: Author::User, text: String::new() },
        ]
    );
}

#[test]
fn config_is_kept_once_it_is_set() {
    let state = AppState::default()
        .reduce(AppAction::SetConfig(layout(&[("sidebar_left", ComponentType::ControlsDrawer)])))
        .reduce(AppAction::SetTheme("light".to_string()));
    let config = state.config.unwrap();
    assert_eq!(
        config.layout.region("sidebar_left"),
        Some(RegionConfig { component: ComponentType::ControlsDrawer })
    );
}

#[test]
fn region_lookup_finds_the_first_entry_of_the_name() {
    let config = layout(&[
        ("sidebar_left", ComponentType::ControlsDrawer),
        ("main_panel", ComponentType::BentoGrid),
        ("hud_top_left", ComponentType::TopLeftHud),
        ("main_panel", ComponentType::ChatHistoryView),
    ]);
    let component = |name: &str| config.layout.region(name).map(|region| region.component);
    assert_eq!(component("sidebar_left"), Some(ComponentType::ControlsDrawer));
    assert_eq!(component("main_panel"), Some(ComponentType::BentoGrid));
    assert_eq!(component("hud_top_left"), Some(ComponentType::TopLeftHud));
    assert_eq!(component("sidebar_right"), None);
    assert_eq!(component(""), None);
    assert_eq!(layout(&[]).layout.region("main_panel"), None);
}
