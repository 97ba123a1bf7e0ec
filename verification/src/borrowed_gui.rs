//! A window that draws widgets it does not own: the widgets live elsewhere,
//! at least as long as the window.

use crate::gui::{rule, Widget};
use vstd::prelude::*;

verus! {

/// A titled frame around borrowed widgets, drawn in the order they were
/// added.
pub struct Window<'a> {
    pub title: String,
    pub widgets: Vec<&'a dyn Widget>,
}

/// The text of the widgets of `widgets`, one after the other.
pub open spec fn renderings(widgets: Seq<&dyn Widget>) -> Seq<char>
    decreases widgets.len(),
{
    if widgets.len() == 0 {
        Seq::empty()
    } else {
        renderings(widgets.drop_last()) + widgets.last().rendering()
    }
}

impl<'a> Window<'a> {
    pub fn new(title: &str) -> (r: Window<'a>)
        ensures
            r.title@ == title@,
            r.widgets@.len() == 0,
    {
        Window { title: title.to_owned(), widgets: Vec::new() }
    }

    pub fn add_widget(&mut self, widget: &'a dyn Widget)
        ensures
            final(self).title == old(self).title,
            final(self).widgets@ == old(self).widgets@.push(widget),
    {
        self.widgets.push(widget);
    }
}

impl Widget for Window<'_> {
    open spec fn rendering(&self) -> Seq<char> {
        rule() + self.title@ + "\n"@ + rule() + renderings(self.widgets@)
    }

    fn draw_into(&self, buffer: &mut String) {
        buffer.push_str("========\n");
        buffer.push_str(self.title.as_str());
        buffer.push_str("\n");
        buffer.push_str("========\n");
        let ghost head = buffer@;
        let mut i: usize = 0;
        while i < self.widgets.len()
            invariant
                i <= self.widgets@.len(),
                buffer@ == head + renderings(self.widgets@.take(i as int)),
            decreases self.widgets@.len() - i,
        {
            self.widgets[i].draw_into(buffer);
            proof {
                let next = self.widgets@.take(i + 1);
                assert(next.drop_last() =~= self.widgets@.take(i as int));
                assert(next.last() == self.widgets@[i as int]);
                assert(head + renderings(next) =~= head + renderings(next.drop_last())
                    + next.last().rendering());
            }
            i += 1;
        }
        proof {
            assert(self.widgets@.take(i as int) =~= self.widgets@);
            assert(head + renderings(self.widgets@) =~= old(buffer)@ + self.rendering());
        }
    }
}

} // verus!
