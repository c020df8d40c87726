//! The application model: its state, the messages it responds to, and
//! the synchronous reducer that dispatches them.

use crate::config::{spec_field_errors, spec_loaded_config, QuickviewConfig, RawConfig};
use crate::contexts::Context;
use crate::nav::{init_model, NavEntry, NavModel, PageId};
use crate::pages;
use vstd::prelude::*;
use vstd::string::*;

verus! {

/// The messages that can be sent to the application.
#[derive(Debug, Clone)]
pub enum AppMessage {
    /// Toggle the drawer for the given context page.
    ToggleContextPage(Context),
    /// Replace the configuration with the record the store announced.
    UpdateConfig(QuickviewConfig),
    /// Open the given URL in the platform's external handler.
    OpenUrl(String),
}

/// The actions the header menu can take.
#[derive(Clone, Copy, Debug, Eq, PartialEq, Structural)]
pub enum AppAction {
    MenuToggleAboutContextPage,
}

impl AppAction {
    /// Converts the menu action to the message it sends.
    pub fn message(&self) -> (m: AppMessage)
        ensures
            m == AppMessage::ToggleContextPage(Context::About),
    {
        match self {
            AppAction::MenuToggleAboutContextPage => AppMessage::ToggleContextPage(Context::About),
        }
    }
}

/// A follow-up effect the reducer asks the shell to perform.
#[derive(Debug, Clone, PartialEq, Eq)]
pub enum Effect {
    /// Open the URL in the platform's external handler.
    OpenUrl(String),
}

/// The application model.
#[derive(Debug)]
pub struct App {
    /// Which context page is selected for the drawer.
    pub context_page: Context,
    /// Whether the context drawer is shown.
    pub show_context: bool,
    /// The sidebar navigation model.
    pub nav_model: NavModel,
    /// The persisted configuration.
    pub config: QuickviewConfig,
}

/// What one toggle of a context page does to the drawer: the same page
/// again flips the drawer's visibility; a different page takes over the
/// drawer and shows it.
pub open spec fn toggle_step(context_page: Context, show_context: bool, page: Context) -> (
    Context,
    bool,
) {
    if context_page == page {
        (context_page, !show_context)
    } else {
        (page, true)
    }
}

/// The window title: the application title, then the active page's
/// display text after a separating dash, when there is an active page.
pub open spec fn spec_window_title(app_title: Seq<char>, page: Option<Seq<char>>) -> Seq<char> {
    match page {
        Some(text) => app_title + " — "@ + text,
        None => app_title,
    }
}

impl App {
    /// Creates the application model: the two navigation entries with
    /// the home entry active, no context drawer shown, and the
    /// configuration read out of what the store handed over, `fallback`
    /// standing in for whatever it could not.
    pub fn init(
        home_text: String,
        config_text: String,
        store: Option<RawConfig>,
        fallback: QuickviewConfig,
    ) -> (r: (App, u64))
        ensures
            r.0.context_page == Context::NoPage,
            !r.0.show_context,
            r.0.nav_model.entries@.len() == 2,
            r.0.nav_model.entries@[0].text == home_text,
            r.0.nav_model.entries@[0].page == PageId::Home,
            r.0.nav_model.entries@[0].active,
            r.0.nav_model.entries@[1].text == config_text,
            r.0.nav_model.entries@[1].page == PageId::Config,
            !r.0.nav_model.entries@[1].active,
            r.0.nav_model.one_active(),
            store is None ==> r.0.config == fallback && r.1 == 0,
            store is Some ==> r.0.config == spec_loaded_config(store->0, fallback) && r.1
                == spec_field_errors(store->0) as u64,
    {
        let (config, errors) = QuickviewConfig::config(store, fallback);
        let app = App {
            context_page: Context::default(),
            show_context: false,
            nav_model: init_model(home_text, config_text),
            config,
        };
        (app, errors)
    }

    /// The window title for the current state.
    pub fn update_title(&self, app_title: &str) -> (title: String)
        ensures
            title@ == spec_window_title(app_title@, self.nav_model.spec_active_text()),
    {
        let mut title = app_title.to_owned();
        match self.nav_model.active_text() {
            Some(text) => {
                title.append(" — ");
                title.append(text.as_str());
            },
            None => {},
        }
        title
    }

    /// Called when a navigation entry is selected: activates it and
    /// yields the window title to set.
    pub fn on_nav_select(&mut self, index: usize, app_title: &str) -> (title: String)
        ensures
            final(self).context_page == old(self).context_page,
            final(self).show_context == old(self).show_context,
            final(self).config == old(self).config,
            final(self).nav_model.entries@.len() == old(self).nav_model.entries@.len(),
            index < old(self).nav_model.entries@.len() ==> {
                &&& forall|j: int|
                    0 <= j < old(self).nav_model.entries@.len()
                        ==> #[trigger] final(self).nav_model.entries@[j] == (NavEntry {
                        active: j == index as int,
                        ..old(self).nav_model.entries@[j]
                    })
                &&& final(self).nav_model.one_active()
            },
            index >= old(self).nav_model.entries@.len() ==> final(self).nav_model == old(
                self,
            ).nav_model,
            title@ == spec_window_title(app_title@, final(self).nav_model.spec_active_text()),
    {
        self.nav_model.activate(index);
        self.update_title(app_title)
    }

    /// The context page the drawer is to show, if it is to be shown at
    /// all.
    pub fn context_drawer(&self) -> (r: Option<Context>)
        ensures
            r == (if self.show_context && self.context_page == Context::About {
                Some(Context::About)
            } else {
                None::<Context>
            }),
    {
        if !self.show_context {
            return None;
        }
        match self.context_page {
            Context::About => Some(Context::About),
            Context::NoPage => None,
        }
    }

    /// The page the main view shows: the active navigation entry's.
    pub fn view(&self) -> (r: Option<PageId>)
        ensures
            r == self.nav_model.spec_active_page(),
    {
        self.nav_model.active_page()
    }

    /// Responds to an application message: toggling a context page flips
    /// or redirects the drawer, a configuration update replaces the
    /// record, and opening a URL is asked of the shell as an effect. The
    /// message is also offered to every page; none reacts to any.
    pub fn update(&mut self, message: AppMessage) -> (effects: Vec<Effect>)
        ensures
            final(self).nav_model == old(self).nav_model,
            match message {
                AppMessage::ToggleContextPage(page) => {
                    &&& (final(self).context_page, final(self).show_context) == toggle_step(
                        old(self).context_page,
                        old(self).show_context,
                        page,
                    )
                    &&& final(self).config == old(self).config
                    &&& effects@.len() == 0
                },
                AppMessage::UpdateConfig(config) => {
                    &&& final(self).config == config
                    &&& final(self).context_page == old(self).context_page
                    &&& final(self).show_context == old(self).show_context
                    &&& effects@.len() == 0
                },
                AppMessage::OpenUrl(url) => {
                    &&& *final(self) == *old(self)
                    &&& effects@ =~= seq![Effect::OpenUrl(url)]
                },
            },
    {
        let mut effects: Vec<Effect> = Vec::new();

        let mut i: usize = 0;
        while i < self.nav_model.entries.len()
            invariant
                i <= self.nav_model.entries@.len(),
                *self == *old(self),
                effects@.len() == 0,
            decreases self.nav_model.entries@.len() - i,
        {
            let page = self.nav_model.entries[i].page;
            let mut page_effects = match page {
                PageId::Home => {
                    let mut p = pages::Home;
                    p.update(&message)
                },
                PageId::Config => {
                    let mut p = pages::Config;
                    p.update(&message)
                },
            };
            effects.append(&mut page_effects);
            i = i + 1;
        }

        match message {
            AppMessage::ToggleContextPage(page) => {
                if self.context_page == page {
                    self.show_context = !self.show_context;
                } else {
                    self.context_page = page;
                    self.show_context = true;
                }
            },
            AppMessage::UpdateConfig(config) => {
                self.config = config;
            },
            AppMessage::OpenUrl(url) => {
                effects.push(Effect::OpenUrl(url));
            },
        }

        effects
    }
}

/// Toggling the same context page twice, starting from a hidden drawer,
/// returns the drawer to hidden, with that page selected.
pub proof fn lemma_toggle_same_page_twice(context_page: Context, page: Context)
    ensures
        ({
            let (cp1, show1) = toggle_step(context_page, false, page);
            let (cp2, show2) = toggle_step(cp1, show1, page);
            cp2 == page && !show2
        }),
{
}

/// Toggling a different context page while the drawer is open switches
/// its content to that page without closing the drawer.
pub proof fn lemma_toggle_other_page_keeps_open(
    context_page: Context,
    show_context: bool,
    page: Context,
)
    requires
        context_page != page,
        show_context,
    ensures
        toggle_step(context_page, show_context, page) == (page, true),
{
}

} // verus!
