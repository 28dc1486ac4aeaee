//! A stack of named sidebar destinations whose base is always the chat list.
use vstd::prelude::*;

verus! {

/// A pane of the sidebar that can stand on the navigation stack.
#[derive(Debug, Clone, Copy, PartialEq, Eq, Structural)]
pub enum Destination {
    Chats,
    Sessions,
    Search,
    ArchivedChats,
}

/// Why a navigation request was refused.
#[derive(Debug, Clone, Copy, PartialEq, Eq, Structural)]
pub enum NavError {
    /// The destination is already on the stack; a pane stands there once.
    AlreadyShown,
    /// The destination to return to is not on the stack.
    NotShown,
}

/// The tag by which a destination is known to the widget layer.
pub open spec fn tag_of(d: Destination) -> Seq<char> {
    match d {
        Destination::Chats => seq!['c', 'h', 'a', 't', 's'],
        Destination::Sessions => seq!['s', 'e', 's', 's', 'i', 'o', 'n', 's'],
        Destination::Search => seq!['s', 'e', 'a', 'r', 'c', 'h'],
        Destination::ArchivedChats => seq![
            'a', 'r', 'c', 'h', 'i', 'v', 'e', 'd', '-', 'c', 'h', 'a', 't', 's',
        ],
    }
}

impl Destination {
    /// The tag of this destination.
    pub fn tag(&self) -> (r: &'static str)
        ensures
            r@ == tag_of(*self),
    {
        match self {
            Destination::Chats => {
                proof { reveal_strlit("chats"); }
                "chats"
            },
            Destination::Sessions => {
                proof { reveal_strlit("sessions"); }
                "sessions"
            },
            Destination::Search => {
                proof { reveal_strlit("search"); }
                "search"
            },
            Destination::ArchivedChats => {
                proof { reveal_strlit("archived-chats"); }
                "archived-chats"
            },
        }
    }
}

/// Whether `s` is a well-formed stack: the chat list at the base and no
/// destination twice.
pub open spec fn stack_wf(s: Seq<Destination>) -> bool {
    &&& s.len() >= 1
    &&& s[0] == Destination::Chats
    &&& forall|i: int, j: int| 0 <= i < j < s.len() ==> s[i] != s[j]
}

/// The stack that returning to `d` leaves: everything above `d` is dropped.
pub open spec fn popped_to(s: Seq<Destination>, d: Destination) -> Seq<Destination> {
    s.subrange(0, s.index_of(d) + 1)
}

/// On a well-formed stack, returning to the chat list leaves it alone.
pub proof fn lemma_popped_to_chats(s: Seq<Destination>)
    requires
        stack_wf(s),
    ensures
        popped_to(s, Destination::Chats) == seq![Destination::Chats],
{
    assert(s[0] == Destination::Chats);
    assert(s.contains(Destination::Chats));
    let j = s.index_of(Destination::Chats);
    if j != 0 {
        assert(s[0] == s[j]);
    }
    assert(popped_to(s, Destination::Chats) =~= seq![Destination::Chats]);
}

/// The navigation stack; the last destination is the one shown.
pub struct NavigationStack {
    frames: Vec<Destination>,
}

impl View for NavigationStack {
    type V = Seq<Destination>;

    closed spec fn view(&self) -> Seq<Destination> {
        self.frames@
    }
}

impl NavigationStack {
    pub open spec fn wf(&self) -> bool {
        stack_wf(self@)
    }

    /// The destination shown, in specifications.
    pub open spec fn top_spec(&self) -> Destination {
        self@.last()
    }

    /// A stack that holds the chat list alone.
    pub fn new() -> (r: NavigationStack)
        ensures
            r.wf(),
            r@ == seq![Destination::Chats],
    {
        let mut frames: Vec<Destination> = Vec::new();
        frames.push(Destination::Chats);
        NavigationStack { frames }
    }

    /// The destination shown.
    pub fn top(&self) -> (r: Destination)
        requires
            self.wf(),
        ensures
            r == self.top_spec(),
    {
        self.frames[self.frames.len() - 1]
    }

    /// The number of destinations on the stack.
    pub fn depth(&self) -> (r: usize)
        ensures
            r == self@.len(),
    {
        self.frames.len()
    }

    /// Whether `d` is on the stack.
    pub fn contains(&self, d: Destination) -> (r: bool)
        ensures
            r == self@.contains(d),
    {
        let mut i: usize = 0;
        while i < self.frames.len()
            invariant
                0 <= i <= self.frames@.len(),
                forall|k: int| 0 <= k < i ==> self.frames@[k] != d,
            decreases self.frames@.len() - i,
        {
            if self.frames[i] == d {
                return true;
            }
            i = i + 1;
        }
        false
    }

    /// Shows `d` above what is shown; refused where `d` is already on the stack.
    pub fn push(&mut self, d: Destination) -> (r: Result<(), NavError>)
        requires
            old(self).wf(),
        ensures
            final(self).wf(),
            r == (if old(self)@.contains(d) { Err(NavError::AlreadyShown) } else { Ok(()) }),
            r is Ok ==> final(self)@ == old(self)@.push(d),
            r is Err ==> final(self)@ == old(self)@,
    {
        if self.contains(d) {
            return Err(NavError::AlreadyShown);
        }
        self.frames.push(d);
        proof {
            let s = self@;
            assert(s.len() >= 1);
            assert forall|i: int, j: int| 0 <= i < j < s.len() implies s[i] != s[j] by {
                if j == s.len() - 1 {
                    assert(old(self)@.contains(s[i]));
                } else {
                    assert(old(self)@[i] != old(self)@[j]);
                }
            }
        }
        Ok(())
    }

    /// Returns to `d`, dropping everything above it; refused where `d` is not
    /// on the stack.
    pub fn pop_to(&mut self, d: Destination) -> (r: Result<(), NavError>)
        requires
            old(self).wf(),
        ensures
            final(self).wf(),
            r == (if old(self)@.contains(d) { Ok(()) } else { Err(NavError::NotShown) }),
            r is Ok ==> final(self)@ == popped_to(old(self)@, d),
            r is Ok ==> final(self).top_spec() == d,
            r is Err ==> final(self)@ == old(self)@,
    {
        let mut i: usize = 0;
        while i < self.frames.len()
            invariant
                0 <= i <= self.frames@.len(),
                self.frames@ == old(self)@,
                stack_wf(old(self)@),
                forall|k: int| 0 <= k < i ==> self.frames@[k] != d,
            decreases self.frames@.len() - i,
        {
            if self.frames[i] == d {
                self.frames.truncate(i + 1);
                proof {
                    let s = old(self)@;
                    assert(s[i as int] == d);
                    assert(s.contains(d));
                    let j = s.index_of(d);
                    assert(0 <= j < s.len() && s[j] == d);
                    assert(j == i) by {
                        if j < i {
                        } else if j > i {
                            assert(s[i as int] == s[j]);
                        }
                    }
                    assert(self@ =~= popped_to(s, d));
                    assert(self@[0] == s[0]);
                    assert forall|a: int, b: int| 0 <= a < b < self@.len() implies self@[a] != self@[b] by {
                        assert(self@[a] == s[a] && self@[b] == s[b]);
                    }
                }
                return Ok(());
            }
            i = i + 1;
        }
        Err(NavError::NotShown)
    }

    /// Returns to the chat list, which is always on the stack.
    pub fn pop_to_chats(&mut self)
        requires
            old(self).wf(),
        ensures
            final(self).wf(),
            final(self)@ == seq![Destination::Chats],
            final(self)@ == popped_to(old(self)@, Destination::Chats),
    {
        proof {
            assert(old(self)@[0] == Destination::Chats);
            assert(old(self)@.contains(Destination::Chats));
            lemma_popped_to_chats(old(self)@);
        }
        let _ = self.pop_to(Destination::Chats);
    }
}

} // verus!
