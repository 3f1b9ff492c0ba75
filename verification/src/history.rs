//! The conversation: turns in the order in which they were said.

use vstd::prelude::*;

verus! {

/// Who said a turn.
#[derive(Clone, Copy, Debug, PartialEq, Eq, Structural)]
pub enum Role {
    User,
    Model,
}

/// One thing said.
#[derive(Clone, Debug, PartialEq, Eq)]
pub struct Turn {
    pub role: Role,
    pub text: String,
}

/// The view of `Turn`: the same value, with every text as its characters.
pub struct TurnView {
    pub role: Role,
    pub text: Seq<char>,
}

impl View for Turn {
    type V = TurnView;

    open spec fn view(&self) -> TurnView {
        TurnView { role: self.role, text: self.text@ }
    }
}

/// The views of a list of turns.
pub open spec fn turn_views(turns: Seq<Turn>) -> Seq<TurnView> {
    Seq::new(turns.len(), |i: int| turns[i]@)
}

/// `turns` with each of `more` appended, one by one.
pub open spec fn appended(turns: Seq<TurnView>, more: Seq<TurnView>) -> Seq<TurnView>
    decreases more.len(),
{
    if more.len() == 0 {
        turns
    } else {
        appended(turns, more.drop_last()).push(more.last())
    }
}

/// `turns` after an exchange: what the user said, then what the model
/// answered.
pub open spec fn with_exchange(turns: Seq<TurnView>, said: Seq<char>, answered: Seq<char>) -> Seq<
    TurnView,
> {
    turns.push(TurnView { role: Role::User, text: said }).push(
        TurnView { role: Role::Model, text: answered },
    )
}

/// The turns of a conversation. Turns are only ever added at the end: none
/// is changed, moved or dropped.
#[derive(Clone, Debug, PartialEq, Eq)]
pub struct History {
    turns: Vec<Turn>,
}

impl View for History {
    type V = Seq<TurnView>;

    closed spec fn view(&self) -> Seq<TurnView> {
        turn_views(self.turns@)
    }
}

impl History {
    /// A conversation in which nothing was said.
    pub fn new() -> (r: History)
        ensures
            r@ == Seq::<TurnView>::empty(),
    {
        let r = History { turns: Vec::new() };
        assert(r@ =~= Seq::empty());
        r
    }

    /// How many turns were said.
    pub fn len(&self) -> (r: usize)
        ensures
            r == self@.len(),
    {
        self.turns.len()
    }

    /// Turn number `at`, from zero.
    pub fn get(&self, at: usize) -> (r: Option<&Turn>)
        ensures
            match r {
                Some(t) => at < self@.len() && t@ == self@[at as int],
                None => at >= self@.len(),
            },
    {
        if at < self.turns.len() {
            Some(&self.turns[at])
        } else {
            None
        }
    }

    /// Adds a turn at the end.
    pub fn push(&mut self, turn: Turn)
        ensures
            final(self)@ == old(self)@.push(turn@),
    {
        self.turns.push(turn);
        assert(self@ =~= old(self)@.push(turn@));
    }

    /// Adds the turns of `more` at the end, in their order.
    pub fn extend(&mut self, more: Vec<Turn>)
        ensures
            final(self)@ == appended(old(self)@, turn_views(more@)),
    {
        let ghost all = turn_views(more@);
        let mut rest = more;
        let mut held: Vec<Turn> = Vec::new();
        while rest.len() > 0
            invariant
                turn_views(rest@) == all.take(rest@.len() as int),
                rest@.len() <= all.len(),
                held@.len() == all.len() - rest@.len(),
                forall|k: int|
                    0 <= k < held@.len() ==> (#[trigger] held@[k])@ == all[all.len() - 1 - k],
            decreases rest@.len(),
        {
            let ghost left = rest@.len() as int;
            let ghost was = rest@;
            let turn = rest.pop().unwrap();
            assert(turn_views(was)[left - 1] == turn@);
            assert(all.take(left)[left - 1] == all[left - 1]);
            assert(turn_views(rest@) =~= all.take(left - 1));
            held.push(turn);
        }
        let total = held.len();
        assert(self@ =~= appended(old(self)@, all.take(0)));
        while held.len() > 0
            invariant
                total == all.len(),
                held@.len() <= total,
                forall|k: int|
                    0 <= k < held@.len() ==> (#[trigger] held@[k])@ == all[all.len() - 1 - k],
                self@ == appended(old(self)@, all.take(total - held@.len())),
            decreases held@.len(),
        {
            let ghost left = held@.len() as int;
            let ghost was = held@;
            let turn = held.pop().unwrap();
            assert(was[left - 1]@ == all[total - left]);
            assert(all.take(total - left + 1).drop_last() =~= all.take(total - left));
            assert(all.take(total - left + 1).last() == all[total - left]);
            self.push(turn);
        }
        assert(all.take(total as int) =~= all);
    }

    /// Adds an exchange: what the user said, then what the model answered.
    pub fn record(&mut self, said: &str, answered: &str)
        ensures
            final(self)@ == with_exchange(old(self)@, said@, answered@),
    {
        self.push(Turn { role: Role::User, text: said.to_owned() });
        self.push(Turn { role: Role::Model, text: answered.to_owned() });
    }

    /// A copy of the turns, in their order.
    pub fn turns(&self) -> (r: Vec<Turn>)
        ensures
            turn_views(r@) == self@,
    {
        let mut out: Vec<Turn> = Vec::new();
        let mut i: usize = 0;
        while i < self.turns.len()
            invariant
                i <= self.turns@.len(),
                out@.len() == i,
                forall|k: int| 0 <= k < i ==> (#[trigger] out@[k])@ == self.turns@[k]@,
            decreases self.turns@.len() - i,
        {
            out.push(Turn { role: self.turns[i].role, text: self.turns[i].text.clone() });
            i = i + 1;
        }
        assert(turn_views(out@) =~= self@);
        out
    }
}

/// Appending turns to a conversation and reading it again gives the turns
/// that were there, and behind them the appended ones in their order: as
/// many as were appended, one equal to a neighbour or to an earlier turn
/// too.
pub proof fn law_history_round_trip(turns: Seq<TurnView>, more: Seq<TurnView>)
    ensures
        appended(turns, more) == turns + more,
        appended(turns, more).len() == turns.len() + more.len(),
        appended(turns, more).take(turns.len() as int) == turns,
        appended(turns, more).skip(turns.len() as int) == more,
    decreases more.len(),
{
    if more.len() > 0 {
        law_history_round_trip(turns, more.drop_last());
        assert(appended(turns, more) =~= turns + more);
    } else {
        assert(turns + more =~= turns);
    }
    assert((turns + more).take(turns.len() as int) =~= turns);
    assert((turns + more).skip(turns.len() as int) =~= more);
}

} // verus!
