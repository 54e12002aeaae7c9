use vstd::prelude::*;
use crate::controls::WM_CTLCOLORSTATIC;

verus! {

/// A background-colour hook: it answers the parent's paint-preparation
/// message for one child with that child's brush.
#[derive(Clone, Copy, Debug, PartialEq, Eq, Structural)]
pub struct BackgroundHook {
    /// The child window whose background is painted.
    pub child: usize,
    /// The brush handed to the window system for that child.
    pub brush: usize,
}

impl BackgroundHook {
    pub open spec fn reply(self, msg: u32, source: usize) -> Option<isize> {
        if msg == WM_CTLCOLORSTATIC && source == self.child {
            Some(self.brush as isize)
        } else {
            None
        }
    }

    /// Answers a message that reached the parent on behalf of `source`:
    /// the brush when it concerns this hook's child, else "not handled".
    pub fn on_message(&self, msg: u32, source: usize) -> (r: Option<isize>)
        ensures
            r == self.reply(msg, source),
    {
        if msg == WM_CTLCOLORSTATIC && source == self.child {
            Some(self.brush as isize)
        } else {
            None
        }
    }
}

/// A hook bound to a parent window under a routing key.
#[derive(Clone, Copy, Debug, PartialEq, Eq, Structural)]
pub struct HookEntry {
    pub token: usize,
    pub parent: usize,
    pub key: usize,
    pub hook: BackgroundHook,
}

/// What the hooks in `entries` answer, tried in order, to a message that
/// reached `parent` on behalf of `source`.
pub open spec fn dispatch_spec(entries: Seq<HookEntry>, parent: usize, msg: u32, source: usize) -> Option<isize>
    decreases entries.len(),
{
    if entries.len() == 0 {
        None
    } else {
        let e = entries[0];
        if e.parent == parent && e.hook.reply(msg, source) is Some {
            e.hook.reply(msg, source)
        } else {
            dispatch_spec(entries.drop_first(), parent, msg, source)
        }
    }
}

/// The hooks bound to parent windows.
pub struct HookRegistry {
    entries: Vec<HookEntry>,
}

impl HookRegistry {
    pub closed spec fn view(&self) -> Seq<HookEntry> {
        self.entries@
    }

    pub fn new() -> (r: HookRegistry)
        ensures
            r.view() == Seq::<HookEntry>::empty(),
    {
        HookRegistry { entries: Vec::new() }
    }

    /// How many hooks are bound.
    pub fn len(&self) -> (r: usize)
        ensures
            r == self.view().len(),
    {
        self.entries.len()
    }

    /// Adds a hook after those already bound.
    pub fn bind(&mut self, entry: HookEntry)
        ensures
            final(self).view() == old(self).view().push(entry),
    {
        self.entries.push(entry);
    }

    /// Removes every hook bound under `token`; the rest keep their order.
    pub fn unbind(&mut self, token: usize)
        ensures
            final(self).view() == old(self).view().filter(|e: HookEntry| e.token != token),
    {
        let mut kept: Vec<HookEntry> = Vec::new();
        let mut i: usize = 0;
        while i < self.entries.len()
            invariant
                i <= self.entries@.len(),
                kept@ == self.entries@.subrange(0, i as int).filter(|e: HookEntry| e.token != token),
            decreases self.entries@.len() - i,
        {
            let e = self.entries[i];
            proof {
                let s = self.entries@.subrange(0, i as int + 1);
                assert(s.drop_last() == self.entries@.subrange(0, i as int));
                reveal(Seq::filter);
            }
            if e.token != token {
                kept.push(e);
            }
            i = i + 1;
        }
        assert(self.entries@.subrange(0, self.entries@.len() as int) == self.entries@);
        self.entries = kept;
    }

    /// Delivers a message that reached `parent` on behalf of `source`: the
    /// first answer of a hook bound to that parent, or "not handled".
    pub fn dispatch(&self, parent: usize, msg: u32, source: usize) -> (r: Option<isize>)
        ensures
            r == dispatch_spec(self.view(), parent, msg, source),
    {
        let mut i: usize = self.entries.len();
        let mut answer: Option<isize> = None;
        while i > 0
            invariant
                i <= self.entries@.len(),
                answer == dispatch_spec(self.entries@.subrange(i as int, self.entries@.len() as int), parent, msg, source),
            decreases i,
        {
            i = i - 1;
            let e = self.entries[i];
            let tail = Ghost(self.entries@.subrange(i as int, self.entries@.len() as int));
            assert(tail@.drop_first() == self.entries@.subrange(i as int + 1, self.entries@.len() as int));
            if e.parent == parent {
                let a = e.hook.on_message(msg, source);
                if a.is_some() {
                    answer = a;
                }
            }
        }
        assert(self.entries@.subrange(0, self.entries@.len() as int) == self.entries@);
        answer
    }
}

/// A message that reached a parent on behalf of a child is answered only
/// with the brush of a hook bound to that parent for that child, and is not
/// handled where no such hook is bound.
pub proof fn dispatch_answers_only_own_child(entries: Seq<HookEntry>, parent: usize, msg: u32, source: usize)
    ensures
        dispatch_spec(entries, parent, msg, source) matches Some(x) ==> exists|i: int|
            0 <= i < entries.len() && entries[i].parent == parent && entries[i].hook.child == source
                && x == entries[i].hook.brush as isize,
        (forall|i: int| 0 <= i < entries.len() ==> !(entries[i].parent == parent && entries[i].hook.child == source))
            ==> dispatch_spec(entries, parent, msg, source) is None,
    decreases entries.len(),
{
    if entries.len() > 0 {
        let rest = entries.drop_first();
        dispatch_answers_only_own_child(rest, parent, msg, source);
        if let Some(x) = dispatch_spec(rest, parent, msg, source) {
            let i = choose|i: int|
                0 <= i < rest.len() && rest[i].parent == parent && rest[i].hook.child == source
                    && x == rest[i].hook.brush as isize;
            assert(entries[i + 1] == rest[i]);
        }
        if forall|i: int| 0 <= i < entries.len() ==> !(entries[i].parent == parent && entries[i].hook.child == source) {
            assert forall|i: int| 0 <= i < rest.len() implies !(rest[i].parent == parent && rest[i].hook.child == source) by {
                assert(entries[i + 1] == rest[i]);
            }
        }
    }
}

/// Two controls hooked on one parent with different children: the message for
/// either child gets that child's own brush, and a parent with neither hook
/// gets no answer.
pub proof fn hooks_on_one_parent_do_not_interfere(a: HookEntry, b: HookEntry, other: usize)
    requires
        a.parent == b.parent,
        a.hook.child != b.hook.child,
        other != a.parent,
    ensures
        dispatch_spec(seq![a, b], a.parent, WM_CTLCOLORSTATIC, a.hook.child) == Some(a.hook.brush as isize),
        dispatch_spec(seq![a, b], a.parent, WM_CTLCOLORSTATIC, b.hook.child) == Some(b.hook.brush as isize),
        dispatch_spec(seq![a, b], other, WM_CTLCOLORSTATIC, a.hook.child) == None::<isize>,
        dispatch_spec(seq![a, b], other, WM_CTLCOLORSTATIC, b.hook.child) == None::<isize>,
{
    let s = seq![a, b];
    assert(s.drop_first() == seq![b]);
    assert(seq![b].drop_first() == Seq::<HookEntry>::empty());
    reveal_with_fuel(dispatch_spec, 3);
}

} // verus!
