//! Which screen is selected, and which one was selected before it.

use vstd::prelude::*;

verus! {

/// The screens of the tool.
#[derive(Debug, Clone, Copy, PartialEq, Eq, Structural)]
pub enum Page {
    Home,
    Slave,
    Master,
}

impl Default for Page {
    fn default() -> (page: Page)
        ensures
            page == Page::Home,
    {
        Page::Home
    }
}

/// Remembers the selected screen and the one it replaced.
///
/// `previous` only moves when the selection really changes, so after the
/// first change the two screens always differ.
#[derive(Debug)]
pub struct PageManager {
    current: Page,
    previous: Page,
}

impl Default for PageManager {
    fn default() -> (manager: PageManager)
        ensures
            manager.current_page() == Page::Home,
            manager.previous_page() == Page::Home,
    {
        PageManager { current: Page::Home, previous: Page::Home }
    }
}

impl PageManager {
    pub closed spec fn spec_current_page(&self) -> Page {
        self.current
    }

    pub closed spec fn spec_previous_page(&self) -> Page {
        self.previous
    }

    /// Both screens start out as `Home`.
    pub fn new() -> (manager: PageManager)
        ensures
            manager.current_page() == Page::Home,
            manager.previous_page() == Page::Home,
    {
        PageManager { current: Page::Home, previous: Page::Home }
    }

    /// Selects `page`. A real change returns the screen that was replaced
    /// and records it as the previous one; selecting the current screen
    /// again changes nothing and returns `None`.
    pub fn set_page(&mut self, page: Page) -> (replaced: Option<Page>)
        ensures
            final(self).current_page() == page,
            old(self).current_page() != page ==> replaced == Some(old(self).current_page())
                && final(self).previous_page() == old(self).current_page(),
            old(self).current_page() == page ==> replaced.is_none()
                && final(self).previous_page() == old(self).previous_page(),
    {
        if self.current != page {
            let old_page = self.current;
            self.previous = old_page;
            self.current = page;
            Some(old_page)
        } else {
            None
        }
    }

    #[verifier::when_used_as_spec(spec_current_page)]
    pub fn current_page(&self) -> (page: Page)
        ensures
            page == self.current_page(),
    {
        self.current
    }

    #[verifier::when_used_as_spec(spec_previous_page)]
    pub fn previous_page(&self) -> (page: Page)
        ensures
            page == self.previous_page(),
    {
        self.previous
    }

    /// Whether the selected screen differs from the one before it.
    pub fn has_changed(&self) -> (changed: bool)
        ensures
            changed == (self.current_page() != self.previous_page()),
    {
        self.current != self.previous
    }
}

} // verus!
