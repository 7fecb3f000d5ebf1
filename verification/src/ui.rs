//! Page selection for the application: which page is shown, how the meta
//! pages (help, settings) toggle, and how the content pages cycle.

pub mod pages;

use vstd::prelude::*;

use pages::{Help, Main};

verus! {

/// The page the application is showing. `Main` and `Help` carry their
/// page state; the other pages hold no state of their own.
#[derive(Copy, Clone, Debug)]
pub enum AppPage {
    Main(Main),
    EisenhowerMat,
    Kanban,
    Tasks,
    Help(Help),
    Settings,
}

impl Default for AppPage {
    /// The application starts on the main page.
    fn default() -> (p: Self)
        ensures
            p == AppPage::Main(Main {  }),
    {
        AppPage::Main(Main {  })
    }
}

impl AppPage {
    /// Toggle the help page: from help back to the main page, from
    /// anywhere else to a fresh help page.
    pub fn toggle_help(&self) -> (p: Self)
        ensures
            p == (match *self {
                AppPage::Help(_) => AppPage::Main(Main {  }),
                _ => AppPage::Help(Help { scroll: 0u16 }),
            }),
    {
        match self {
            AppPage::Help(_) => AppPage::Main(Main {  }),
            _ => AppPage::Help(Help { scroll: 0 }),
        }
    }

    /// Toggle the settings page: from help back to the main page, from
    /// anywhere else to the settings page.
    pub fn toggle_settings(&self) -> (p: Self)
        ensures
            p == (match *self {
                AppPage::Help(_) => AppPage::Main(Main {  }),
                _ => AppPage::Settings,
            }),
    {
        match self {
            AppPage::Help(_) => AppPage::Main(Main {  }),
            _ => AppPage::Settings,
        }
    }

    /// The stable display index of each page, in declaration order. The
    /// tab bar highlights the tab at this index.
    pub open spec fn spec_idx(p: Self) -> int {
        match p {
            AppPage::Main(_) => 0,
            AppPage::EisenhowerMat => 1,
            AppPage::Kanban => 2,
            AppPage::Tasks => 3,
            AppPage::Help(_) => 4,
            AppPage::Settings => 5,
        }
    }

    /// The stable display index of each page, in declaration order.
    pub fn idx_of(x: &Self) -> (i: usize)
        ensures
            i == Self::spec_idx(*x),
    {
        match x {
            AppPage::Main(_) => 0,
            AppPage::EisenhowerMat => 1,
            AppPage::Kanban => 2,
            AppPage::Tasks => 3,
            AppPage::Help(_) => 4,
            AppPage::Settings => 5,
        }
    }

    /// The next content page in the cycle; the meta pages stay put.
    pub fn next_non_meta(&self) -> (p: Self)
        ensures
            p == (match *self {
                AppPage::Main(_) => AppPage::EisenhowerMat,
                AppPage::EisenhowerMat => AppPage::Kanban,
                AppPage::Kanban => AppPage::Tasks,
                AppPage::Tasks => AppPage::Main(Main {  }),
                _ => *self,
            }),
    {
        match self {
            AppPage::Main(_) => AppPage::EisenhowerMat,
            AppPage::EisenhowerMat => AppPage::Kanban,
            AppPage::Kanban => AppPage::Tasks,
            AppPage::Tasks => AppPage::Main(Main {  }),
            _ => *self,
        }
    }

    /// The previous content page in the cycle; the meta pages stay put.
    pub fn prev_non_meta(&self) -> (p: Self)
        ensures
            p == (match *self {
                AppPage::Main(_) => AppPage::Tasks,
                AppPage::Tasks => AppPage::Kanban,
                AppPage::Kanban => AppPage::EisenhowerMat,
                AppPage::EisenhowerMat => AppPage::Main(Main {  }),
                _ => *self,
            }),
    {
        match self {
            AppPage::Main(_) => AppPage::Tasks,
            AppPage::Tasks => AppPage::Kanban,
            AppPage::Kanban => AppPage::EisenhowerMat,
            AppPage::EisenhowerMat => AppPage::Main(Main {  }),
            _ => *self,
        }
    }

    /// Scroll the help page if it is showing; any other page ignores the
    /// scroll.
    pub fn scroll_by(&mut self, scroll: i16)
        ensures
            *final(self) == (match *old(self) {
                AppPage::Help(h) => AppPage::Help(
                    Help { scroll: h.spec_scroll_by(scroll as int) as u16 },
                ),
                _ => *old(self),
            }),
    {
        if let AppPage::Help(help) = self {
            help.scroll_by(scroll);
        }
    }
}

} // verus!
