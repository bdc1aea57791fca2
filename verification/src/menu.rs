//! Lists from which one entry is selected.

use vstd::prelude::*;

verus! {

/// An entry of a menu.
pub trait MenuItem {
    /// The text of the entry.
    spec fn label(&self) -> Seq<char>;

    /// Returns the text of the entry.
    fn format(&self) -> (r: String)
        ensures
            r@ == self.label(),
    ;
}

/// A titled list of options, one of which is highlighted.
pub struct Menu<T> where T: MenuItem {
    pub title: String,
    pub options: Vec<T>,
    pub selected: usize,
}

/// The mathematical content of a [`Menu`].
pub struct MenuView<V> {
    pub title: Seq<char>,
    pub options: Seq<V>,
    pub selected: usize,
}

impl<V> MenuView<V> {
    /// The menu after the highlight has moved up by one entry, unless it is
    /// on the first entry.
    pub open spec fn up(self) -> MenuView<V> {
        if self.selected > 0 {
            MenuView { selected: (self.selected - 1) as usize, ..self }
        } else {
            self
        }
    }

    /// The menu after the highlight has moved down by one entry, unless it
    /// is on the last entry or there is none.
    pub open spec fn down(self) -> MenuView<V> {
        if self.selected + 1 < self.options.len() {
            MenuView { selected: (self.selected + 1) as usize, ..self }
        } else {
            self
        }
    }

    /// The menu after the highlight has moved by one entry, down if `down`
    /// is true and up otherwise, as far as the menu reaches.
    pub open spec fn moved(self, down: bool) -> MenuView<V> {
        if down {
            self.down()
        } else {
            self.up()
        }
    }

    /// The menu without a title or options.
    pub open spec fn empty() -> MenuView<V> {
        MenuView { title: Seq::empty(), options: Seq::empty(), selected: 0 }
    }
}

impl<T: MenuItem + DeepView> View for Menu<T> {
    type V = MenuView<T::V>;

    open spec fn view(&self) -> MenuView<T::V> {
        MenuView { title: self.title@, options: self.options.deep_view(), selected: self.selected }
    }
}

impl<T: MenuItem + DeepView> DeepView for Menu<T> {
    type V = MenuView<T::V>;

    open spec fn deep_view(&self) -> MenuView<T::V> {
        self@
    }
}

impl<T: MenuItem + DeepView> Default for Menu<T> {
    fn default() -> (r: Menu<T>)
        ensures
            r@ == MenuView::<T::V>::empty(),
    {
        let r = Menu { title: String::new(), options: Vec::new(), selected: 0 };
        assert(r.options.deep_view() =~= Seq::<T::V>::empty());
        r
    }
}

impl<T: MenuItem + DeepView> Menu<T> {
    /// Moves the highlight up by one entry, unless it is on the first one.
    pub fn up(&mut self)
        ensures
            final(self)@ == old(self)@.up(),
    {
        if self.selected > 0 {
            self.selected -= 1;
        }
    }

    /// Moves the highlight by one entry, down if `down` is true and up
    /// otherwise.
    pub fn step(&mut self, down: bool)
        ensures
            final(self)@ == old(self)@.moved(down),
    {
        if down {
            self.down()
        } else {
            self.up()
        }
    }

    /// Moves the highlight down by one entry, unless it is on the last one.
    pub fn down(&mut self)
        ensures
            final(self)@ == old(self)@.down(),
    {
        assert(self.options.deep_view().len() == self.options@.len());
        let count = self.options.len();
        if count > 0 && self.selected < count - 1 {
            self.selected += 1;
        }
    }
}

} // verus!
