//! A toolkit of text widgets: each widget draws itself as lines of text.

use vstd::prelude::*;

verus! {

/// What can be drawn as text.
pub trait Widget {
    /// The text that the widget draws.
    spec fn rendering(&self) -> Seq<char>;

    /// Draws the widget behind what `buffer` holds.
    fn draw_into(&self, buffer: &mut String)
        ensures
            final(buffer)@ == old(buffer)@ + self.rendering(),
    ;

    /// Draws the widget into a buffer of its own.
    fn draw(&self) -> (text: String)
        ensures
            text@ == self.rendering(),
    {
        let mut buffer = String::new();
        self.draw_into(&mut buffer);
        buffer
    }
}

/// A line of text.
pub struct Label {
    pub label: String,
}

impl Label {
    pub fn new(label: &str) -> (r: Label)
        ensures
            r.label@ == label@,
    {
        Label { label: label.to_owned() }
    }
}

impl Widget for Label {
    open spec fn rendering(&self) -> Seq<char> {
        self.label@ + "\n"@
    }

    fn draw_into(&self, buffer: &mut String) {
        buffer.push_str(self.label.as_str());
        buffer.push_str("\n");
    }
}

/// A label between two bars.
pub struct Button {
    pub label: Label,
}

impl Button {
    pub fn new(label: &str) -> (r: Button)
        ensures
            r.label.label@ == label@,
    {
        Button { label: Label::new(label) }
    }
}

impl Widget for Button {
    open spec fn rendering(&self) -> Seq<char> {
        "| "@ + self.label.label@ + " |\n"@
    }

    fn draw_into(&self, buffer: &mut String) {
        buffer.push_str("| ");
        buffer.push_str(self.label.label.as_str());
        buffer.push_str(" |\n");
    }
}

/// A titled frame around other widgets, drawn in the order they were added.
pub struct Window {
    pub title: String,
    pub widgets: Vec<Box<dyn Widget>>,
}

impl Window {
    pub fn new(title: &str) -> (r: Window)
        ensures
            r.title@ == title@,
            r.widgets@.len() == 0,
    {
        Window { title: title.to_owned(), widgets: Vec::new() }
    }

    pub fn add_widget(&mut self, widget: Box<dyn Widget>)
        ensures
            final(self).title == old(self).title,
            final(self).widgets@ == old(self).widgets@.push(widget),
    {
        self.widgets.push(widget);
    }
}

/// The text of the widgets of `widgets`, one after the other.
pub open spec fn renderings(widgets: Seq<Box<dyn Widget>>) -> Seq<char>
    decreases widgets.len(),
{
    if widgets.len() == 0 {
        Seq::empty()
    } else {
        renderings(widgets.drop_last()) + widgets.last().rendering()
    }
}

/// The line above and below a window's title.
pub open spec fn rule() -> Seq<char> {
    "========\n"@
}

impl Widget for Window {
    open spec fn rendering(&self) -> Seq<char> {
        rule() + self.title@ + "\n"@ + rule() + renderings(self.widgets@)
    }

    fn draw_into(&self, buffer: &mut String) {
        buffer.push_str("========\n");
        buffer.push_str(self.title.as_str());
        buffer.push_str("\n");
        buffer.push_str("========\n");
        let ghost head = buffer@;
        let mut i: usize = 0;
        while i < self.widgets.len()
            invariant
                i <= self.widgets@.len(),
                buffer@ == head + renderings(self.widgets@.take(i as int)),
            decreases self.widgets@.len() - i,
        {
            self.widgets[i].draw_into(buffer);
            proof {
                let next = self.widgets@.take(i + 1);
                assert(next.drop_last() =~= self.widgets@.take(i as int));
                assert(next.last() == self.widgets@[i as int]);
                assert(head + renderings(next) =~= head + renderings(next.drop_last())
                    + next.last().rendering());
            }
            i += 1;
        }
        proof {
            assert(self.widgets@.take(i as int) =~= self.widgets@);
            assert(head + renderings(self.widgets@) =~= old(buffer)@ + self.rendering());
        }
    }
}

} // verus!
