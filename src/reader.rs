use vstd::prelude::*;

verus! {

/// Position of the reader pane within a text of `total` lines.
#[derive(Debug, Clone, Copy)]
pub struct ScrollState {
    pub position: usize,
    pub total: usize,
    pub view_size: usize,
}

impl ScrollState {
    pub fn new(total: usize) -> (r: Self)
        ensures
            r.position == 0,
            r.total == total,
            r.view_size == 1,
    {
        ScrollState { position: 0, total, view_size: 1 }
    }

    /// Moves one line down, never past the last line.
    pub fn scroll_down(&mut self)
        ensures
            final(self).position == if old(self).position < old(self).total {
                old(self).position + 1
            } else {
                old(self).position as int
            },
            final(self).total == old(self).total,
            final(self).view_size == old(self).view_size,
    {
        if self.position < self.total {
            self.position = self.position + 1;
        }
    }

    /// Moves one line up, stopping at the first line.
    pub fn scroll_up(&mut self)
        ensures
            final(self).position == if old(self).position > 0 {
                old(self).position - 1
            } else {
                0
            },
            final(self).total == old(self).total,
            final(self).view_size == old(self).view_size,
    {
        self.position = self.position.saturating_sub(1);
    }

    /// The first line shown: the position, held so that the last page stays full.
    pub fn visible_offset(&self) -> (r: usize)
        ensures
            r == if self.total > self.view_size {
                if self.position < self.total - self.view_size {
                    self.position as int
                } else {
                    self.total - self.view_size
                }
            } else {
                0
            },
    {
        let last_page = self.total.saturating_sub(self.view_size);
        if self.position < last_page {
            self.position
        } else {
            last_page
        }
    }
}

/// The screen shown: the list of feeds, the posts of one feed, or one post.
#[derive(Debug, Clone, Copy, PartialEq, Eq, Structural)]
pub enum View {
    Feeds,
    Posts,
    Post,
}

impl View {
    /// The view after opening the selected item; nothing opens without a selection,
    /// and a post opens nothing further.
    pub fn opened(self, has_selection: bool) -> (r: View)
        ensures
            r == match self {
                View::Feeds => if has_selection { View::Posts } else { View::Feeds },
                View::Posts => if has_selection { View::Post } else { View::Posts },
                View::Post => View::Post,
            },
    {
        match self {
            View::Feeds => if has_selection { View::Posts } else { View::Feeds },
            View::Posts => if has_selection { View::Post } else { View::Posts },
            View::Post => View::Post,
        }
    }

    /// The view after going back one level.
    pub fn closed(self) -> (r: View)
        ensures
            r == match self {
                View::Feeds => View::Feeds,
                View::Posts => View::Feeds,
                View::Post => View::Posts,
            },
    {
        match self {
            View::Feeds => View::Feeds,
            View::Posts => View::Feeds,
            View::Post => View::Posts,
        }
    }
}

/// The selected index of a list of `len` items, where it points at one of them.
pub fn selection_in(selected: Option<usize>, len: usize) -> (r: Option<usize>)
    ensures
        r == match selected {
            Some(i) => if i < len { Some(i) } else { None },
            None => None::<usize>,
        },
{
    match selected {
        Some(i) => if i < len { Some(i) } else { None },
        None => None,
    }
}

} // verus!
