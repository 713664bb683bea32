//! The state of the user interface, and the reducer that every change to it
//! goes through.

use crate::frontend::config_service::{RegionConfig, UiConfig};
use vstd::prelude::*;

verus! {

/// What a content area shows.
#[derive(Debug, Clone, PartialEq, Eq)]
pub enum ContentType {
    TransparentSvg,
    IFrame(String),
    Video(String),
    WebGL(String),
    Empty,
    AnimatedSvg,
    SolidColor(String),
    Image(String),
}

/// Who wrote a chat message.
#[derive(Debug, Clone, Copy, PartialEq, Eq, Structural)]
pub enum Author {
    User,
    Bot,
}

/// One chat message. Its id is its place in the conversation.
#[derive(Debug, Clone, PartialEq, Eq)]
pub struct Message {
    pub id: usize,
    pub author: Author,
    pub text: String,
}

/// The chat so far, oldest message first.
#[derive(Debug, Clone, PartialEq, Eq)]
pub struct Conversation {
    pub messages: Vec<Message>,
}

/// The state of the user interface.
#[derive(Debug, Clone, PartialEq, Eq)]
pub struct AppState {
    pub theme: String,
    pub title: String,
    pub selected_pattern_title: String,
    pub background_pattern: String,
    pub sidebar_left_collapsed: bool,
    pub sidebar_right_collapsed: bool,
    pub hud_top_left_collapsed: bool,
    pub hud_top_right_collapsed: bool,
    pub hud_bottom_left_collapsed: bool,
    pub hud_bottom_right_collapsed: bool,
    pub activity_bar_collapsed: bool,
    pub background_content: ContentType,
    pub main_content: ContentType,
    pub config: Option<UiConfig>,
    pub conversation: Conversation,
    pub language: String,
}

/// The changes that can be asked of the state.
#[derive(Debug)]
pub enum AppAction {
    SetTheme(String),
    SetTitle(String),
    SetSelectedPatternTitle(String),
    SetBackgroundPattern(String),
    ToggleSidebarLeft,
    ToggleSidebarRight,
    ToggleHudTopLeft,
    ToggleHudTopRight,
    ToggleHudBottomLeft,
    ToggleHudBottomRight,
    ToggleActivityBar,
    SetBackgroundContent(ContentType),
    SetMainContent(ContentType),
    SetConfig(UiConfig),
    SendChatMessage(String),
    SetLanguage(String),
}

/// [`ContentType`] as a mathematical value.
pub enum ContentTypeView {
    TransparentSvg,
    IFrame(Seq<char>),
    Video(Seq<char>),
    WebGL(Seq<char>),
    Empty,
    AnimatedSvg,
    SolidColor(Seq<char>),
    Image(Seq<char>),
}

/// [`Message`] as a mathematical value.
pub struct MessageView {
    pub id: usize,
    pub author: Author,
    pub text: Seq<char>,
}

/// [`AppState`] as a mathematical value.
pub struct AppStateView {
    pub theme: Seq<char>,
    pub title: Seq<char>,
    pub selected_pattern_title: Seq<char>,
    pub background_pattern: Seq<char>,
    pub sidebar_left_collapsed: bool,
    pub sidebar_right_collapsed: bool,
    pub hud_top_left_collapsed: bool,
    pub hud_top_right_collapsed: bool,
    pub hud_bottom_left_collapsed: bool,
    pub hud_bottom_right_collapsed: bool,
    pub activity_bar_collapsed: bool,
    pub background_content: ContentTypeView,
    pub main_content: ContentTypeView,
    pub config: Option<Seq<(Seq<char>, RegionConfig)>>,
    pub messages: Seq<MessageView>,
    pub language: Seq<char>,
}

/// [`AppAction`] as a mathematical value.
pub enum AppActionView {
    SetTheme(Seq<char>),
    SetTitle(Seq<char>),
    SetSelectedPatternTitle(Seq<char>),
    SetBackgroundPattern(Seq<char>),
    ToggleSidebarLeft,
    ToggleSidebarRight,
    ToggleHudTopLeft,
    ToggleHudTopRight,
    ToggleHudBottomLeft,
    ToggleHudBottomRight,
    ToggleActivityBar,
    SetBackgroundContent(ContentTypeView),
    SetMainContent(ContentTypeView),
    SetConfig(Seq<(Seq<char>, RegionConfig)>),
    SendChatMessage(Seq<char>),
    SetLanguage(Seq<char>),
}

impl View for ContentType {
    type V = ContentTypeView;

    open spec fn view(&self) -> ContentTypeView {
        match self {
            ContentType::TransparentSvg => ContentTypeView::TransparentSvg,
            ContentType::IFrame(url) => ContentTypeView::IFrame(url@),
            ContentType::Video(url) => ContentTypeView::Video(url@),
            ContentType::WebGL(url) => ContentTypeView::WebGL(url@),
            ContentType::Empty => ContentTypeView::Empty,
            ContentType::AnimatedSvg => ContentTypeView::AnimatedSvg,
            ContentType::SolidColor(color) => ContentTypeView::SolidColor(color@),
            ContentType::Image(url) => ContentTypeView::Image(url@),
        }
    }
}

impl View for Message {
    type V = MessageView;

    open spec fn view(&self) -> MessageView {
        MessageView { id: self.id, author: self.author, text: self.text@ }
    }
}

impl View for Conversation {
    type V = Seq<MessageView>;

    open spec fn view(&self) -> Seq<MessageView> {
        Seq::new(self.messages@.len(), |i: int| self.messages@[i]@)
    }
}

impl View for AppState {
    type V = AppStateView;

    open spec fn view(&self) -> AppStateView {
        AppStateView {
            theme: self.theme@,
            title: self.title@,
            selected_pattern_title: self.selected_pattern_title@,
            background_pattern: self.background_pattern@,
            sidebar_left_collapsed: self.sidebar_left_collapsed,
            sidebar_right_collapsed: self.sidebar_right_collapsed,
            hud_top_left_collapsed: self.hud_top_left_collapsed,
            hud_top_right_collapsed: self.hud_top_right_collapsed,
            hud_bottom_left_collapsed: self.hud_bottom_left_collapsed,
            hud_bottom_right_collapsed: self.hud_bottom_right_collapsed,
            activity_bar_collapsed: self.activity_bar_collapsed,
            background_content: self.background_content@,
            main_content: self.main_content@,
            config: match self.config {
                Some(config) => Some(config@),
                None => None,
            },
            messages: self.conversation@,
            language: self.language@,
        }
    }
}

impl View for AppAction {
    type V = AppActionView;

    open spec fn view(&self) -> AppActionView {
        match self {
            AppAction::SetTheme(theme) => AppActionView::SetTheme(theme@),
            AppAction::SetTitle(title) => AppActionView::SetTitle(title@),
            AppAction::SetSelectedPatternTitle(title) => AppActionView::SetSelectedPatternTitle(
                title@,
            ),
            AppAction::SetBackgroundPattern(pattern) => AppActionView::SetBackgroundPattern(
                pattern@,
            ),
            AppAction::ToggleSidebarLeft => AppActionView::ToggleSidebarLeft,
            AppAction::ToggleSidebarRight => AppActionView::ToggleSidebarRight,
            AppAction::ToggleHudTopLeft => AppActionView::ToggleHudTopLeft,
            AppAction::ToggleHudTopRight => AppActionView::ToggleHudTopRight,
            AppAction::ToggleHudBottomLeft => AppActionView::ToggleHudBottomLeft,
            AppAction::ToggleHudBottomRight => AppActionView::ToggleHudBottomRight,
            AppAction::ToggleActivityBar => AppActionView::ToggleActivityBar,
            AppAction::SetBackgroundContent(content) => AppActionView::SetBackgroundContent(
                content@,
            ),
            AppAction::SetMainContent(content) => AppActionView::SetMainContent(content@),
            AppAction::SetConfig(config) => AppActionView::SetConfig(config@),
            AppAction::SendChatMessage(text) => AppActionView::SendChatMessage(text@),
            AppAction::SetLanguage(language) => AppActionView::SetLanguage(language@),
        }
    }
}

/// The state that an application starts in.
pub open spec fn default_state() -> AppStateView {
    AppStateView {
        theme: "dark"@,
        title: "hudwiz"@,
        selected_pattern_title: "hudwiz"@,
        background_pattern: "default"@,
        sidebar_left_collapsed: true,
        sidebar_right_collapsed: true,
        hud_top_left_collapsed: true,
        hud_top_right_collapsed: true,
        hud_bottom_left_collapsed: true,
        hud_bottom_right_collapsed: true,
        activity_bar_collapsed: false,
        background_content: ContentTypeView::AnimatedSvg,
        main_content: ContentTypeView::Image("/static/images/background_content.jpg"@),
        config: None,
        messages: Seq::empty(),
        language: "en-US"@,
    }
}

/// The state that follows `state` on `action`. Each action changes the one
/// thing it names; a chat message is appended as the user's, with its place
/// in the conversation as its id.
pub open spec fn reduce_spec(state: AppStateView, action: AppActionView) -> AppStateView {
    match action {
        AppActionView::SetTheme(theme) => AppStateView { theme, ..state },
        AppActionView::SetTitle(title) => AppStateView { title, ..state },
        AppActionView::SetSelectedPatternTitle(title) => AppStateView {
            selected_pattern_title: title,
            ..state
        },
        AppActionView::SetBackgroundPattern(pattern) => AppStateView {
            background_pattern: pattern,
            ..state
        },
        AppActionView::ToggleSidebarLeft => AppStateView {
            sidebar_left_collapsed: !state.sidebar_left_collapsed,
            ..state
        },
        AppActionView::ToggleSidebarRight => AppStateView {
            sidebar_right_collapsed: !state.sidebar_right_collapsed,
            ..state
        },
        AppActionView::ToggleHudTopLeft => AppStateView {
            hud_top_left_collapsed: !state.hud_top_left_collapsed,
            ..state
        },
        AppActionView::ToggleHudTopRight => AppStateView {
            hud_top_right_collapsed: !state.hud_top_right_collapsed,
            ..state
        },
        AppActionView::ToggleHudBottomLeft => AppStateView {
            hud_bottom_left_collapsed: !state.hud_bottom_left_collapsed,
            ..state
        },
        AppActionView::ToggleHudBottomRight => AppStateView {
            hud_bottom_right_collapsed: !state.hud_bottom_right_collapsed,
            ..state
        },
        AppActionView::ToggleActivityBar => AppStateView {
            activity_bar_collapsed: !state.activity_bar_collapsed,
            ..state
        },
        AppActionView::SetBackgroundContent(content) => AppStateView {
            background_content: content,
            ..state
        },
        AppActionView::SetMainContent(content) => AppStateView { main_content: content, ..state },
        AppActionView::SetConfig(config) => AppStateView { config: Some(config), ..state },
        AppActionView::SendChatMessage(text) => AppStateView {
            messages: state.messages.push(
                MessageView { id: state.messages.len() as usize, author: Author::User, text },
            ),
            ..state
        },
        AppActionView::SetLanguage(language) => AppStateView { language, ..state },
    }
}

/// Every message has its place in the conversation as its id.
pub open spec fn ids_in_order(messages: Seq<MessageView>) -> bool {
    forall|i: int| 0 <= i < messages.len() ==> (#[trigger] messages[i]).id == i
}

impl Default for Conversation {
    fn default() -> (conversation: Conversation)
        ensures
            conversation@ == Seq::<MessageView>::empty(),
    {
        let conversation = Conversation { messages: Vec::new() };
        assert(conversation@ =~= Seq::<MessageView>::empty());
        conversation
    }
}

impl Default for AppState {
    fn default() -> (state: AppState)
        ensures
            state@ == default_state(),
    {
        AppState {
            theme: "dark".to_owned(),
            title: "hudwiz".to_owned(),
            selected_pattern_title: "hudwiz".to_owned(),
            background_pattern: "default".to_owned(),
            sidebar_left_collapsed: true,
            sidebar_right_collapsed: true,
            hud_top_left_collapsed: true,
            hud_top_right_collapsed: true,
            hud_bottom_left_collapsed: true,
            hud_bottom_right_collapsed: true,
            activity_bar_collapsed: false,
            background_content: ContentType::AnimatedSvg,
            main_content: ContentType::Image("/static/images/background_content.jpg".to_owned()),
            config: None,
            conversation: Conversation::default(),
            language: "en-US".to_owned(),
        }
    }
}

impl AppState {
    /// Applies `action` to the state.
    pub fn reduce(self, action: AppAction) -> (next: AppState)
        ensures
            next@ == reduce_spec(self@, action@),
    {
        let mut next_state = self;
        match action {
            AppAction::SetTheme(theme) => next_state.theme = theme,
            AppAction::SetTitle(title) => next_state.title = title,
            AppAction::SetSelectedPatternTitle(title) => next_state.selected_pattern_title = title,
            AppAction::SetBackgroundPattern(pattern) => next_state.background_pattern = pattern,
            AppAction::ToggleSidebarLeft => next_state.sidebar_left_collapsed =
                !next_state.sidebar_left_collapsed,
            AppAction::ToggleSidebarRight => next_state.sidebar_right_collapsed =
                !next_state.sidebar_right_collapsed,
            AppAction::ToggleHudTopLeft => next_state.hud_top_left_collapsed =
                !next_state.hud_top_left_collapsed,
            AppAction::ToggleHudTopRight => next_state.hud_top_right_collapsed =
                !next_state.hud_top_right_collapsed,
            AppAction::ToggleHudBottomLeft => next_state.hud_bottom_left_collapsed =
                !next_state.hud_bottom_left_collapsed,
            AppAction::ToggleHudBottomRight => next_state.hud_bottom_right_collapsed =
                !next_state.hud_bottom_right_collapsed,
            AppAction::ToggleActivityBar => next_state.activity_bar_collapsed =
                !next_state.activity_bar_collapsed,
            AppAction::SetBackgroundContent(content) => next_state.background_content = content,
            AppAction::SetMainContent(content) => next_state.main_content = content,
            AppAction::SetConfig(config) => next_state.config = Some(config),
            AppAction::SendChatMessage(text) => {
                let new_message = Message {
                    id: next_state.conversation.messages.len(),
                    author: Author::User,
                    text,
                };
                next_state.conversation.messages.push(new_message);
                assert(next_state.conversation@ =~= self.conversation@.push(new_message@));
            },
            AppAction::SetLanguage(lang) => next_state.language = lang,
        }
        next_state
    }
}

/// The ids of the messages stay in order whatever is asked of the state, and
/// they are in order in the state that an application starts in.
pub proof fn lemma_ids_stay_in_order(state: AppStateView, action: AppActionView)
    requires
        ids_in_order(state.messages),
        state.messages.len() <= usize::MAX,
    ensures
        ids_in_order(reduce_spec(state, action).messages),
        ids_in_order(default_state().messages),
{
}

/// Toggling twice changes nothing.
pub proof fn lemma_toggle_twice(state: AppStateView)
    ensures
        reduce_spec(
            reduce_spec(state, AppActionView::ToggleSidebarLeft),
            AppActionView::ToggleSidebarLeft,
        ) == state,
        reduce_spec(
            reduce_spec(state, AppActionView::ToggleSidebarRight),
            AppActionView::ToggleSidebarRight,
        ) == state,
        reduce_spec(
            reduce_spec(state, AppActionView::ToggleActivityBar),
            AppActionView::ToggleActivityBar,
        ) == state,
{
}

} // verus!
