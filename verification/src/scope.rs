//! The scope and symbol resolver.
//!
//! One compilation owns one stack of nested scopes, held in an arena and
//! addressed by guards. Opening a child scope returns a [`ScopeGuard`];
//! a scope is torn down only by an explicit close of its guard, which
//! makes use of a closed scope structurally impossible. Closing the
//! deepest open scope eagerly pops any already-closed scopes beneath it;
//! closing an inner scope first merely marks it, deferring the pop until
//! the deepest guard closes, so the stack order survives defensive
//! misuse.
//!
//! Symbol definition goes to the innermost scope. A duplicate definition
//! in the root scope is reported back to the caller (which queues the
//! diagnostic) and the new symbol still replaces the old for later
//! lookups; a duplicate in a nested scope is permitted shadowing. Lookup
//! walks from the innermost open scope outward and returns the nearest
//! match.

use vstd::prelude::*;

use crate::ast::Range;
use crate::value::{Value, ValueS, wf_value};

verus! {

/// A named slot in a scope.
pub struct Symbol {
    pub value: Value,
}

impl Symbol {
    /// Wrap a value as a symbol.
    pub fn from(value: Value) -> (r: Symbol)
        ensures
            r.value@ == value@,
    {
        Symbol { value }
    }
}

/// One scope: an optional name (functions and modules are named, plain
/// blocks are not), its symbols in definition order, and whether its
/// guard is still open.
pub struct Scope {
    pub name: Option<String>,
    pub symbols: Vec<(String, Symbol)>,
    pub open: bool,
}

/// Mathematical image of a [`Scope`].
#[verifier::ext_equal]
pub struct ScopeS {
    pub name: Option<Seq<char>>,
    pub symbols: Seq<(Seq<char>, ValueS)>,
    pub open: bool,
}

impl View for Scope {
    type V = ScopeS;

    open spec fn view(&self) -> ScopeS {
        ScopeS {
            name: (match self.name {
                Option::Some(n) => Option::Some(n@),
                Option::None => Option::None,
            }),
            symbols: Seq::new(self.symbols@.len(), |i: int| (self.symbols@[i].0@, self.symbols@[i].1.value@)),
            open: self.open,
        }
    }
}

/// The handle to one open scope. Closing the scope consumes the guard.
pub struct ScopeGuard {
    pub index: usize,
}

/// The arena holding the one scope stack of a compilation.
pub struct ScopeArena {
    pub scopes: Vec<Scope>,
}

impl View for ScopeArena {
    type V = Seq<ScopeS>;

    open spec fn view(&self) -> Seq<ScopeS> {
        Seq::new(self.scopes@.len(), |i: int| self.scopes@[i]@)
    }
}

/// Find a name in one scope's symbols: the latest definition wins.
pub open spec fn sym_lookup_s(sy: Seq<(Seq<char>, ValueS)>, name: Seq<char>) -> Option<ValueS>
    decreases sy,
{
    if sy.len() == 0 {
        Option::None
    } else if sy.last().0 == name {
        Option::Some(sy.last().1)
    } else {
        sym_lookup_s(sy.drop_last(), name)
    }
}

/// Find a name across the scope stack: innermost open scope first.
pub open spec fn lookup_s(ss: Seq<ScopeS>, name: Seq<char>) -> Option<ValueS>
    decreases ss,
{
    if ss.len() == 0 {
        Option::None
    } else if ss.last().open && sym_lookup_s(ss.last().symbols, name) is Some {
        sym_lookup_s(ss.last().symbols, name)
    } else {
        lookup_s(ss.drop_last(), name)
    }
}

/// Drop the already-closed scopes from the top of the stack.
pub open spec fn pop_closed_s(ss: Seq<ScopeS>) -> Seq<ScopeS>
    decreases ss,
{
    if ss.len() > 0 && !ss.last().open {
        pop_closed_s(ss.drop_last())
    } else {
        ss
    }
}

/// The stack after the scope at `i` is closed: it is marked, and any
/// closed scopes now at the top are popped.
pub open spec fn close_s(ss: Seq<ScopeS>, i: int) -> Seq<ScopeS> {
    pop_closed_s(
        ss.update(
            i,
            ScopeS { name: ss[i].name, symbols: ss[i].symbols, open: false },
        ),
    )
}

/// Every symbol of every scope holds a well-formed value.
pub open spec fn wf_scopes(ss: Seq<ScopeS>) -> bool {
    forall|i: int, j: int|
        0 <= i < ss.len() && 0 <= j < ss[i].symbols.len() ==> wf_value(
            (#[trigger] ss[i].symbols[j]).1,
        )
}

/// The arena invariant: the top scope, if any, is open, and all stored
/// values are well formed.
pub open spec fn wf_arena(ss: Seq<ScopeS>) -> bool {
    &&& ss.len() > 0 ==> ss.last().open
    &&& wf_scopes(ss)
}

/// A guard is valid for an arena when it addresses an open scope.
pub open spec fn guard_valid(ss: Seq<ScopeS>, g: ScopeGuard) -> bool {
    g.index < ss.len() && ss[g.index as int].open
}

/// The names of the open scopes, outermost first, with one more segment
/// appended: the qualified path of a member of the current scope.
pub open spec fn path_names_s(ss: Seq<ScopeS>) -> Seq<Seq<char>>
    decreases ss,
{
    if ss.len() == 0 {
        Seq::empty()
    } else {
        path_names_s(ss.drop_last()) + (match ss.last() {
            s => if s.open && s.name is Some {
                seq![s.name->0]
            } else {
                Seq::empty()
            },
        })
    }
}

/// A looked-up value always comes from an open scope: if no open scope
/// defines the name, lookup finds nothing.
pub proof fn lemma_lookup_none(ss: Seq<ScopeS>, name: Seq<char>)
    requires
        forall|j: int|
            0 <= j < ss.len() ==> ((#[trigger] ss[j]).open ==> sym_lookup_s(ss[j].symbols, name)
                is None),
    ensures
        lookup_s(ss, name) is None,
    decreases ss,
{
    if ss.len() > 0 {
        assert(ss[ss.len() - 1] == ss.last());
        assert forall|j: int|
            0 <= j < ss.drop_last().len() implies ((#[trigger] ss.drop_last()[j]).open
            ==> sym_lookup_s(ss.drop_last()[j].symbols, name) is None) by {
            assert(ss.drop_last()[j] == ss[j]);
        }
        lemma_lookup_none(ss.drop_last(), name);
    }
}

proof fn lemma_pop_closed_none(ss: Seq<ScopeS>, name: Seq<char>)
    requires
        forall|j: int|
            0 <= j < ss.len() ==> ((#[trigger] ss[j]).open ==> sym_lookup_s(ss[j].symbols, name)
                is None),
    ensures
        lookup_s(pop_closed_s(ss), name) is None,
    decreases ss,
{
    if ss.len() > 0 && !ss.last().open {
        assert forall|j: int|
            0 <= j < ss.drop_last().len() implies ((#[trigger] ss.drop_last()[j]).open
            ==> sym_lookup_s(ss.drop_last()[j].symbols, name) is None) by {
            assert(ss.drop_last()[j] == ss[j]);
        }
        lemma_pop_closed_none(ss.drop_last(), name);
    } else {
        lemma_lookup_none(ss, name);
    }
}

/// A symbol defined only inside one scope is unreachable by lookup once
/// that scope's guard has closed: if no other open scope defines the
/// name, closing the defining scope makes lookup find nothing.
pub proof fn lemma_closed_scope_unreachable(ss: Seq<ScopeS>, i: int, name: Seq<char>)
    requires
        0 <= i < ss.len(),
        forall|j: int|
            0 <= j < ss.len() && j != i ==> ((#[trigger] ss[j]).open ==> sym_lookup_s(
                ss[j].symbols,
                name,
            ) is None),
    ensures
        lookup_s(close_s(ss, i), name) is None,
{
    let up = ss.update(i, ScopeS { name: ss[i].name, symbols: ss[i].symbols, open: false });
    assert forall|j: int|
        0 <= j < up.len() implies ((#[trigger] up[j]).open ==> sym_lookup_s(up[j].symbols, name)
        is None) by {
        if j != i {
            assert(up[j] == ss[j]);
        }
    }
    lemma_pop_closed_none(up, name);
}

impl ScopeArena {
    /// An arena with no scopes: the state before a compilation begins.
    pub fn new() -> (r: ScopeArena)
        ensures
            r@ =~= Seq::<ScopeS>::empty(),
    {
        ScopeArena { scopes: Vec::new() }
    }

    /// Discard every scope, ready for another compilation.
    pub fn reset(&mut self)
        ensures
            final(self)@ =~= Seq::<ScopeS>::empty(),
    {
        self.scopes = Vec::new();
    }

    /// Open the root scope of a compilation; there can be only one.
    pub fn open_root(&mut self, name: Option<String>) -> (g: ScopeGuard)
        requires
            old(self)@.len() == 0,
        ensures
            final(self)@ =~= seq![
                ScopeS {
                    name: (match name {
                        Option::Some(n) => Option::Some(n@),
                        Option::None => Option::None,
                    }),
                    symbols: Seq::empty(),
                    open: true,
                },
            ],
            g.index == 0,
            guard_valid(final(self)@, g),
            wf_arena(final(self)@),
    {
        let r = Scope { name, symbols: Vec::new(), open: true };
        let ghost rv = r@;
        self.scopes.push(r);
        proof {
            assert(rv.symbols =~= Seq::<(Seq<char>, ValueS)>::empty());
            assert(self@ =~= seq![rv]);
        }
        ScopeGuard { index: 0 }
    }

    /// Open a child of the current innermost scope.
    pub fn enter_subscope(&mut self, name: Option<String>) -> (g: ScopeGuard)
        requires
            old(self)@.len() > 0,
            wf_arena(old(self)@),
        ensures
            final(self)@ =~= old(self)@.push(
                ScopeS {
                    name: (match name {
                        Option::Some(n) => Option::Some(n@),
                        Option::None => Option::None,
                    }),
                    symbols: Seq::empty(),
                    open: true,
                },
            ),
            g.index == old(self)@.len(),
            guard_valid(final(self)@, g),
            wf_arena(final(self)@),
    {
        let g = ScopeGuard { index: self.scopes.len() };
        let r = Scope { name, symbols: Vec::new(), open: true };
        let ghost rv = r@;
        self.scopes.push(r);
        proof {
            assert(rv.symbols =~= Seq::<(Seq<char>, ValueS)>::empty());
            assert(self@ =~= old(self)@.push(rv));
            assert forall|i: int, j: int|
                0 <= i < final(self)@.len() && 0 <= j < final(self)@[i].symbols.len() implies wf_value(
                (#[trigger] final(self)@[i].symbols[j]).1,
            ) by {
                if i < old(self)@.len() {
                    assert(final(self)@[i] == old(self)@[i]);
                }
            }
        }
        g
    }

    /// Close the scope a guard addresses, consuming the guard. If it was
    /// the deepest open scope, any already-closed scopes beneath it are
    /// popped too; otherwise the pop is deferred.
    pub fn exit_subscope(&mut self, g: ScopeGuard)
        requires
            guard_valid(old(self)@, g),
            wf_arena(old(self)@),
        ensures
            final(self)@ =~= close_s(old(self)@, g.index as int),
            wf_arena(final(self)@),
    {
        let i = g.index;
        let entry = self.scopes.remove(i);
        self.scopes.insert(i, Scope { name: entry.name, symbols: entry.symbols, open: false });
        proof {
            let now = Seq::new(self.scopes@.len(), |k: int| self.scopes@[k]@);
            let tgt = close_target(old(self)@, g.index as int);
            assert forall|k: int| 0 <= k < now.len() implies now[k] == tgt[k] by {
                if k != g.index as int {
                    assert(self.scopes@[k] == old(self).scopes@[k]);
                    assert(old(self)@[k] == old(self).scopes@[k]@);
                } else {
                    assert(old(self)@[k].symbols =~= self.scopes@[k]@.symbols);
                }
            }
            assert(now =~= tgt);
        }
        while self.scopes.len() > 0 && !self.scopes[self.scopes.len() - 1].open
            invariant
                pop_closed_s(
                    Seq::new(self.scopes@.len(), |k: int| self.scopes@[k]@),
                ) == pop_closed_s(close_target(old(self)@, g.index as int)),
                wf_scopes(Seq::new(self.scopes@.len(), |k: int| self.scopes@[k]@)),
            decreases self.scopes@.len(),
        {
            let ghost before = Seq::new(self.scopes@.len(), |k: int| self.scopes@[k]@);
            self.scopes.pop();
            proof {
                let after = Seq::new(self.scopes@.len(), |k: int| self.scopes@[k]@);
                assert(after =~= before.drop_last());
                assert(pop_closed_s(before) == pop_closed_s(after));
                assert forall|a: int, b: int|
                    0 <= a < after.len() && 0 <= b < after[a].symbols.len() implies wf_value(
                    (#[trigger] after[a].symbols[b]).1,
                ) by {
                    assert(after[a] == before[a]);
                }
            }
        }
        proof {
            let now = Seq::new(self.scopes@.len(), |k: int| self.scopes@[k]@);
            assert(now =~= final(self)@);
            assert(pop_closed_s(now) =~= now);
            assert(final(self)@ =~= close_s(old(self)@, g.index as int));
        }
    }

    /// Define a symbol in the innermost scope. In the root scope a
    /// duplicate is reported by returning the prior definition's origin
    /// range (the new definition still lands); in a nested scope a
    /// duplicate is permitted shadowing and nothing is reported.
    pub fn add_symbol(&mut self, name: &String, symbol: Symbol) -> (dup: Option<Range>)
        requires
            old(self)@.len() > 0,
            wf_arena(old(self)@),
            wf_value(symbol.value@),
        ensures
            final(self)@ =~= old(self)@.update(
                old(self)@.len() - 1,
                ScopeS {
                    name: old(self)@.last().name,
                    symbols: old(self)@.last().symbols.push((name@, symbol.value@)),
                    open: true,
                },
            ),
            wf_arena(final(self)@),
            (match sym_lookup_s(old(self)@.last().symbols, name@) {
                Option::Some(prior) => dup == if old(self)@.len() == 1 {
                    Option::Some(prior.range)
                } else {
                    Option::<Range>::None
                },
                Option::None => dup is None,
            }),
    {
        let top = self.scopes.len() - 1;
        let dup = if top == 0 {
            match Self::find_in(&self.scopes[top].symbols, name) {
                Option::Some(prior_range) => Option::Some(prior_range),
                Option::None => Option::None,
            }
        } else {
            Option::None
        };
        proof {
            assert(old(self)@.last() == self.scopes@[top as int]@);
        }
        let name2 = name.clone();
        let scopes = &mut self.scopes;
        let mut entry = scopes.remove(top);
        entry.symbols.push((name2, symbol));
        entry.open = true;
        scopes.push(entry);
        proof {
            assert(final(self)@.last().symbols =~= old(self)@.last().symbols.push(
                (name@, symbol.value@),
            ));
            assert(final(self)@ =~= old(self)@.update(
                old(self)@.len() - 1,
                ScopeS {
                    name: old(self)@.last().name,
                    symbols: old(self)@.last().symbols.push((name@, symbol.value@)),
                    open: true,
                },
            ));
            assert forall|i: int, j: int|
                0 <= i < final(self)@.len() && 0 <= j < final(self)@[i].symbols.len() implies wf_value(
                (#[trigger] final(self)@[i].symbols[j]).1,
            ) by {
                if i < final(self)@.len() - 1 {
                    assert(final(self)@[i] == old(self)@[i]);
                } else {
                    if j < final(self)@[i].symbols.len() - 1 {
                        assert(final(self)@[i].symbols[j] == old(self)@[i].symbols[j]);
                    }
                }
            }
        }
        dup
    }

    /// The origin range of the latest symbol of this name, if any.
    fn find_in(symbols: &Vec<(String, Symbol)>, name: &String) -> (r: Option<Range>)
        ensures
            (match sym_lookup_s(
                Seq::new(symbols@.len(), |i: int| (symbols@[i].0@, symbols@[i].1.value@)),
                name@,
            ) {
                Option::Some(prior) => r == Option::Some(prior.range),
                Option::None => r is None,
            }),
    {
        let ghost sy = Seq::new(symbols@.len(), |i: int| (symbols@[i].0@, symbols@[i].1.value@));
        let mut i: usize = symbols.len();
        proof {
            assert(sy.take(i as int) =~= sy);
        }
        while i > 0
            invariant
                i <= symbols@.len(),
                sy =~= Seq::new(symbols@.len(), |k: int| (symbols@[k].0@, symbols@[k].1.value@)),
                sym_lookup_s(sy, name@) == sym_lookup_s(sy.take(i as int), name@),
            decreases i,
        {
            i = i - 1;
            proof {
                assert(sy.take(i + 1).drop_last() =~= sy.take(i as int));
                assert(sy.take(i + 1).last() == sy[i as int]);
                assert(sy[i as int] == (symbols@[i as int].0@, symbols@[i as int].1.value@));
            }
            if symbols[i].0.eq(name) {
                let r = symbols[i].1.value.range;
                proof {
                    assert(sym_lookup_s(sy.take(i + 1), name@) == Option::Some(
                        sy[i as int].1,
                    ));
                }
                return Option::Some(r);
            }
        }
        proof {
            assert(sy.take(0) =~= Seq::<(Seq<char>, ValueS)>::empty());
        }
        Option::None
    }

    /// Find a name from the innermost open scope outward, returning a
    /// copy of the nearest match.
    pub fn get_symbol(&self, name: &String) -> (r: Option<Value>)
        requires
            wf_arena(self@),
        ensures
            (match lookup_s(self@, name@) {
                Option::Some(v) => r matches Option::Some(x) && x@ == v && wf_value(x@),
                Option::None => r is None,
            }),
    {
        let mut i: usize = self.scopes.len();
        proof {
            assert(self@.take(self.scopes@.len() as int) =~= self@);
        }
        while i > 0
            invariant
                i <= self.scopes@.len(),
                lookup_s(self@, name@) == lookup_s(self@.take(i as int), name@),
                wf_arena(self@),
            decreases i,
        {
            i = i - 1;
            proof {
                assert(self@.take(i + 1).drop_last() =~= self@.take(i as int));
                assert(self@.take(i + 1).last() == self@[i as int]);
                assert(self@[i as int] == self.scopes@[i as int]@);
            }
            if self.scopes[i].open {
                match Self::value_in(&self.scopes[i].symbols, name) {
                    Option::Some(v) => {
                        proof {
                            assert(wf_value(v@)) by {
                                let sy = self@[i as int].symbols;
                                lemma_sym_lookup_wf(sy, name@, i as int, self@);
                            }
                        }
                        return Option::Some(v);
                    },
                    Option::None => {},
                }
            }
        }
        proof {
            assert(self@.take(0) =~= Seq::<ScopeS>::empty());
        }
        Option::None
    }

    /// The value of the latest symbol of this name in one scope, if any.
    fn value_in(symbols: &Vec<(String, Symbol)>, name: &String) -> (r: Option<Value>)
        ensures
            (match sym_lookup_s(
                Seq::new(symbols@.len(), |i: int| (symbols@[i].0@, symbols@[i].1.value@)),
                name@,
            ) {
                Option::Some(v) => r matches Option::Some(x) && x@ == v,
                Option::None => r is None,
            }),
    {
        let ghost sy = Seq::new(symbols@.len(), |i: int| (symbols@[i].0@, symbols@[i].1.value@));
        let mut i: usize = symbols.len();
        proof {
            assert(sy.take(i as int) =~= sy);
        }
        while i > 0
            invariant
                i <= symbols@.len(),
                sy =~= Seq::new(symbols@.len(), |k: int| (symbols@[k].0@, symbols@[k].1.value@)),
                sym_lookup_s(sy, name@) == sym_lookup_s(sy.take(i as int), name@),
            decreases i,
        {
            i = i - 1;
            proof {
                assert(sy.take(i + 1).drop_last() =~= sy.take(i as int));
                assert(sy.take(i + 1).last() == sy[i as int]);
                assert(sy[i as int] == (symbols@[i as int].0@, symbols@[i as int].1.value@));
            }
            if symbols[i].0.eq(name) {
                let v = symbols[i].1.value.clone();
                return Option::Some(v);
            }
        }
        proof {
            assert(sy.take(0) =~= Seq::<(Seq<char>, ValueS)>::empty());
        }
        Option::None
    }

    /// The qualified path of a member named `sub` of the current scope:
    /// the names of the open scopes, outermost first, then `sub`.
    pub fn module_with_sub(&self, sub: &String) -> (r: Vec<String>)
        ensures
            Seq::new(r@.len(), |i: int| r@[i]@) =~= path_names_s(self@).push(sub@),
    {
        let mut out: Vec<String> = Vec::new();
        let mut i: usize = 0;
        proof {
            assert(self@.take(0) =~= Seq::<ScopeS>::empty());
        }
        while i < self.scopes.len()
            invariant
                i <= self.scopes@.len(),
                Seq::new(out@.len(), |k: int| out@[k]@) =~= path_names_s(self@.take(i as int)),
            decreases self.scopes@.len() - i,
        {
            proof {
                assert(self@.take(i + 1).drop_last() =~= self@.take(i as int));
                assert(self@.take(i + 1).last() == self@[i as int]);
                assert(self@[i as int] == self.scopes@[i as int]@);
            }
            let sc = &self.scopes[i];
            if sc.open {
                match &sc.name {
                    Option::Some(n) => {
                        let n2 = n.clone();
                        out.push(n2);
                    },
                    Option::None => {},
                }
            }
            i = i + 1;
            proof {
                assert(Seq::new(out@.len(), |k: int| out@[k]@) =~= path_names_s(
                    self@.take(i as int),
                ));
            }
        }
        proof {
            assert(self@.take(i as int) =~= self@);
        }
        let s2 = sub.clone();
        out.push(s2);
        proof {
            assert(Seq::new(out@.len(), |k: int| out@[k]@) =~= path_names_s(self@).push(sub@));
        }
        out
    }
}

/// Helper for [`ScopeArena::exit_subscope`]'s loop: the stack as it
/// stands once the closed scope is marked.
pub open spec fn close_target(ss: Seq<ScopeS>, i: int) -> Seq<ScopeS> {
    ss.update(i, ScopeS { name: ss[i].name, symbols: ss[i].symbols, open: false })
}

proof fn lemma_sym_lookup_wf(sy: Seq<(Seq<char>, ValueS)>, name: Seq<char>, i: int, ss: Seq<ScopeS>)
    requires
        0 <= i < ss.len(),
        ss[i].symbols == sy,
        wf_scopes(ss),
        sym_lookup_s(sy, name) is Some,
    ensures
        wf_value(sym_lookup_s(sy, name)->0),
{
    lemma_sym_lookup_in(sy, name);
    let j = choose|j: int|
        0 <= j < sy.len() && sy[j].1 == sym_lookup_s(sy, name)->0 && sy[j].0 == name;
    assert(wf_value(ss[i].symbols[j].1));
}

/// A found symbol is one of the scope's entries.
proof fn lemma_sym_lookup_in(sy: Seq<(Seq<char>, ValueS)>, name: Seq<char>)
    requires
        sym_lookup_s(sy, name) is Some,
    ensures
        exists|j: int|
            0 <= j < sy.len() && (#[trigger] sy[j]).1 == sym_lookup_s(sy, name)->0 && sy[j].0
                == name,
    decreases sy,
{
    if sy.last().0 == name {
        assert(sy[sy.len() - 1] == sy.last());
    } else {
        lemma_sym_lookup_in(sy.drop_last(), name);
        let j = choose|j: int|
            0 <= j < sy.drop_last().len() && (#[trigger] sy.drop_last()[j]).1 == sym_lookup_s(
                sy.drop_last(),
                name,
            )->0 && sy.drop_last()[j].0 == name;
        assert(sy[j] == sy.drop_last()[j]);
    }
}

} // verus!
