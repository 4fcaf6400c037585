//! The state of one floating panel, owned by the worker that renders it.
use vstd::prelude::*;
use vstd::string::StringExecFns;

use crate::text::{decimal, decimal_string, greeting, greeting_text};

verus! {

/// The largest panel number whose initial age, `12 + 10 * n`, fits in a `u32`.
pub const MAX_THREAD_NR: usize = 429_496_728;

/// The title of the panel with the given number.
pub open spec fn panel_title(thread_nr: nat) -> Seq<char> {
    "Background thread "@ + decimal(thread_nr)
}

/// What a panel holds, as plain values.
pub struct PanelView {
    pub thread_nr: nat,
    pub title: Seq<char>,
    pub name: Seq<char>,
    pub age: nat,
}

/// The panel after one click of its "each year" button.
pub open spec fn clicked(p: PanelView) -> PanelView {
    PanelView { age: p.age + 1, ..p }
}

/// One panel's state. The number and title are fixed at creation; the name
/// and age are edited by the panel's own widgets.
pub struct ThreadState {
    thread_nr: usize,
    title: String,
    pub name: String,
    pub age: u32,
}

impl View for ThreadState {
    type V = PanelView;

    closed spec fn view(&self) -> PanelView {
        PanelView {
            thread_nr: self.thread_nr as nat,
            title: self.title@,
            name: self.name@,
            age: self.age as nat,
        }
    }
}

impl ThreadState {
    /// The panel numbered `thread_nr`, greeting "Arthur" at age `12 + 10 * thread_nr`.
    pub fn new(thread_nr: usize) -> (r: Self)
        requires
            thread_nr <= MAX_THREAD_NR,
        ensures
            r@ == (PanelView {
                thread_nr: thread_nr as nat,
                title: panel_title(thread_nr as nat),
                name: "Arthur"@,
                age: (12 + 10 * thread_nr) as nat,
            }),
    {
        let mut title = String::from_str("Background thread ");
        let digits = decimal_string(thread_nr as u64);
        title.append(digits.as_str());
        let age: u32 = 12 + (thread_nr as u32) * 10;
        ThreadState { thread_nr, title, name: String::from_str("Arthur"), age }
    }

    pub fn thread_nr(&self) -> (r: usize)
        ensures
            r as nat == self@.thread_nr,
    {
        self.thread_nr
    }

    pub fn title(&self) -> (r: &str)
        ensures
            r@ == self@.title,
    {
        self.title.as_str()
    }

    /// One click of the "each year" button: the age goes up by one, nothing else changes.
    pub fn click(&mut self)
        requires
            old(self)@.age < u32::MAX,
        ensures
            final(self)@ == clicked(old(self)@),
    {
        self.age = self.age + 1;
    }

    /// The greeting line under the panel's controls.
    pub fn greeting(&self) -> (r: String)
        ensures
            r@ == greeting_text(self@.name, self@.age),
    {
        greeting(self.name.as_str(), self.age)
    }
}

/// A click on one panel raises that panel's age by one and leaves every other
/// panel exactly as it was.
pub proof fn lemma_click_is_local(panels: Seq<PanelView>, i: int)
    requires
        0 <= i < panels.len(),
    ensures
        panels.update(i, clicked(panels[i]))[i].age == panels[i].age + 1,
        forall|j: int|
            0 <= j < panels.len() && j != i ==> #[trigger] panels.update(i, clicked(panels[i]))[j]
                == panels[j],
{
}

} // verus!
