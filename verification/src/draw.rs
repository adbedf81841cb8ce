//! A screen of components that each know how to draw themselves.
use vstd::prelude::*;
use vstd::string::*;

verus! {

/// Something that can be drawn.
pub trait Draw {
    /// The text that drawing produces.
    spec fn drawn(&self) -> Seq<char>;

    /// Draws the component and hands back what was drawn.
    fn draw(&self) -> (out: String)
        ensures
            out@ == self.drawn(),
    ;
}

/// A push button.
pub struct Button {
    pub width: u32,
    pub height: u32,
    pub label: String,
}

impl Draw for Button {
    open spec fn drawn(&self) -> Seq<char> {
        "Button"@
    }

    fn draw(&self) -> (out: String) {
        String::from_str("Button")
    }
}

/// A box to pick one of several options from.
pub struct SelectBox {
    pub width: u32,
    pub height: u32,
    pub options: Vec<String>,
}

impl Draw for SelectBox {
    open spec fn drawn(&self) -> Seq<char> {
        "SelectBox"@
    }

    fn draw(&self) -> (out: String) {
        String::from_str("SelectBox")
    }
}

/// Components of any kind, in the order in which they are drawn.
pub struct Screen {
    pub components: Vec<Box<dyn Draw>>,
}

impl Screen {
    /// Draws every component, first to last, and returns what each drew.
    pub fn run(&self) -> (out: Vec<String>)
        ensures
            out@.len() == self.components@.len(),
            forall|i: int|
                0 <= i < out@.len() ==> (#[trigger] out@[i])@ == self.components@[i].drawn(),
    {
        let mut out: Vec<String> = Vec::new();
        let mut i: usize = 0;
        while i < self.components.len()
            invariant
                i <= self.components@.len(),
                out@.len() == i,
                forall|k: int|
                    0 <= k < out@.len() ==> (#[trigger] out@[k])@ == self.components@[k].drawn(),
            decreases self.components@.len() - i,
        {
            let text = self.components[i].draw();
            out.push(text);
            i = i + 1;
        }
        out
    }
}

/// Draws a component that is owned.
pub fn draw1(x: Box<dyn Draw>) -> (out: String)
    ensures
        out@ == x.drawn(),
{
    x.draw()
}

/// Draws a component that is borrowed.
pub fn draw2(x: &dyn Draw) -> (out: String)
    ensures
        out@ == x.drawn(),
{
    x.draw()
}

} // verus!
