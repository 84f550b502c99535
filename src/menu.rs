use vstd::prelude::*;

verus! {

/// An event of the settings menu.
#[derive(Clone, Copy, Debug, PartialEq, Eq, Structural)]
pub enum Msg {
    Close,
    ToggleVisible,
}

/// The settings menu: whether its panel is open.
pub struct Menu {
    pub visible: bool,
}

impl Menu {
    /// A closed menu.
    pub fn new() -> (r: Menu)
        ensures
            !r.visible,
    {
        Menu { visible: false }
    }

    /// Closes the panel, or opens and closes it in turn; always redraws.
    pub fn update(&mut self, msg: Msg) -> (r: bool)
        ensures
            final(self).visible == (msg == Msg::ToggleVisible && !old(self).visible),
            r,
    {
        match msg {
            Msg::Close => self.visible = false,
            Msg::ToggleVisible => self.visible = !self.visible,
        }
        true
    }
}

} // verus!
