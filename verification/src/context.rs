//! The symbol table that resolves identifiers while expressions are
//! reduced and evaluated.
//!
//! A `Context` maps identifier strings to tokens: literal numbers, named
//! functions, or shared variable cells. The cells themselves live in an
//! arena owned by the context, and a variable token carries the index of
//! its cell, so every compiled expression that mentions the same name
//! reads and writes the same cell.
use vstd::prelude::*;
use crate::variable::Variable;
use crate::fp::{F64_POS_INF, F64_NEG_INF};

verus! {

/// The closed set of named built-in functions.
#[derive(Clone, Copy, Debug, PartialEq, Eq, Structural)]
pub enum FuncKind {
    /// `if(a, op, b, then, else)`: compares `a` with `b` under the
    /// comparison that `op` rounds to and picks one of the two branches.
    If,
    Sin,
    Cos,
    Tan,
    Arcsin,
    Arccos,
    Arctan,
    Sinh,
    Cosh,
    Tanh,
    Ln,
    Log10,
    /// `log(x, base)`.
    Log,
    Abs,
}

/// The number of arguments each built-in function consumes.
pub open spec fn arity_spec(k: FuncKind) -> int {
    match k {
        FuncKind::If => 5,
        FuncKind::Log => 2,
        _ => 1,
    }
}

/// Executable arity of a built-in function.
pub fn arity(k: FuncKind) -> (r: usize)
    ensures
        r == arity_spec(k),
{
    match k {
        FuncKind::If => 5,
        FuncKind::Log => 2,
        _ => 1,
    }
}

/// One symbol of an expression: a structural token of the grammar, a
/// literal number (as binary64 bits), a shared variable cell (as an
/// arena index), or a named function.
#[derive(Clone, Copy, Debug, PartialEq, Eq, Structural)]
pub enum Token {
    LeftParenthesis,
    Comma,
    /// The `^` operator.
    Exp,
    Mul,
    Div,
    Plus,
    Minus,
    Num(u64),
    Var(usize),
    Func(FuncKind),
}

/// A token that may be stored under a user identifier: anything but the
/// structural tokens of the grammar.
pub open spec fn storable_spec(t: Token) -> bool {
    t is Num || t is Var || t is Func
}

/// A token's variable index, if any, stays inside an arena of `nvars`
/// cells.
pub open spec fn token_in_arena(t: Token, nvars: int) -> bool {
    t matches Token::Var(i) ==> i < nvars
}

/// True when `k` occurs as a key of the entry sequence.
pub open spec fn has_key_spec(s: Seq<(String, Token)>, k: Seq<char>) -> bool {
    exists|i: int| 0 <= i < s.len() && s[i].0@ == k
}

/// The index at which the key `k` occurs.
pub open spec fn key_index_spec(s: Seq<(String, Token)>, k: Seq<char>) -> int {
    choose|i: int| 0 <= i < s.len() && s[i].0@ == k
}

/// The token stored under `k`, if any.
pub open spec fn lookup_entries_spec(s: Seq<(String, Token)>, k: Seq<char>) -> Option<Token> {
    if has_key_spec(s, k) {
        Some(s[key_index_spec(s, k)].1)
    } else {
        None
    }
}

/// Compares two strings character by character.
pub fn str_eq(a: &str, b: &str) -> (r: bool)
    ensures
        r == (a@ == b@),
{
    let la = a.unicode_len();
    let lb = b.unicode_len();
    if la != lb {
        return false;
    }
    let mut i: usize = 0;
    while i < la
        invariant
            i <= la,
            la == a@.len(),
            la == b@.len(),
            forall|j: int| 0 <= j < i ==> a@[j] == b@[j],
        decreases la - i,
    {
        if a.get_char(i) != b.get_char(i) {
            return false;
        }
        i = i + 1;
    }
    proof {
        assert(a@ =~= b@);
    }
    true
}

/// The name-to-token mapping, owning the arena of variable cells.
pub struct Context {
    pub entries: Vec<(String, Token)>,
    pub vars: Vec<Variable>,
}

impl Context {
    /// Every key occurs once, every stored token is storable, and every
    /// variable token points into the arena.
    pub open spec fn wf(self) -> bool {
        &&& forall|i: int, j: int|
            0 <= i < j < self.entries@.len() ==> self.entries@[i].0@ != self.entries@[j].0@
        &&& forall|i: int|
            0 <= i < self.entries@.len() ==> #[trigger] storable_spec(self.entries@[i].1)
        &&& forall|i: int|
            0 <= i < self.entries@.len() ==> token_in_arena(
                #[trigger] self.entries@[i].1,
                self.vars@.len() as int,
            )
    }

    /// The token stored under `k`, if any.
    pub open spec fn lookup_spec(self, k: Seq<char>) -> Option<Token> {
        lookup_entries_spec(self.entries@, k)
    }

    /// True when some token is stored under `k`.
    pub open spec fn contains_key_spec(self, k: Seq<char>) -> bool {
        has_key_spec(self.entries@, k)
    }

    /// An empty context: no names, no cells.
    pub fn new() -> (c: Context)
        ensures
            c.wf(),
            c.entries@.len() == 0,
            c.vars@.len() == 0,
    {
        Context { entries: Vec::new(), vars: Vec::new() }
    }

    /// Looks a name up, returning a copy of its token.
    pub fn get(&self, name: &str) -> (r: Option<Token>)
        requires
            self.wf(),
        ensures
            r == self.lookup_spec(name@),
    {
        let n = self.entries.len();
        let mut i: usize = 0;
        while i < n
            invariant
                self.wf(),
                i <= n,
                n == self.entries@.len(),
                forall|j: int| 0 <= j < i ==> self.entries@[j].0@ != name@,
            decreases n - i,
        {
            if str_eq(name, self.entries[i].0.as_str()) {
                proof {
                    assert(has_key_spec(self.entries@, name@));
                    let j = key_index_spec(self.entries@, name@);
                    assert(0 <= j < self.entries@.len() && self.entries@[j].0@ == name@);
                    assert(j == i);
                }
                return Some(self.entries[i].1);
            }
            i = i + 1;
        }
        proof {
            assert(!has_key_spec(self.entries@, name@));
        }
        None
    }

    /// True when the context holds an entry for the name.
    pub fn contains_key(&self, name: &str) -> (r: bool)
        requires
            self.wf(),
        ensures
            r == self.contains_key_spec(name@),
    {
        let t = self.get(name);
        t.is_some()
    }

    /// Stores a token under a name, replacing any earlier entry for it.
    fn put(&mut self, name: &str, tok: Token)
        requires
            old(self).wf(),
            storable_spec(tok),
            token_in_arena(tok, old(self).vars@.len() as int),
        ensures
            final(self).wf(),
            final(self).vars == old(self).vars,
            final(self).lookup_spec(name@) == Some(tok),
            forall|k: Seq<char>|
                k != name@ ==> final(self).lookup_spec(k) == old(self).lookup_spec(k),
            forall|k: Seq<char>|
                final(self).contains_key_spec(k) <==> (old(self).contains_key_spec(k) || k
                    == name@),
    {
        let ghost s0 = self.entries@;
        let n = self.entries.len();
        let mut i: usize = 0;
        while i < n
            invariant
                self.wf(),
                self.entries@ == s0,
                self.vars == old(self).vars,
                s0 == old(self).entries@,
                i <= n,
                n == s0.len(),
                storable_spec(tok),
                token_in_arena(tok, self.vars@.len() as int),
                forall|j: int| 0 <= j < i ==> s0[j].0@ != name@,
            decreases n - i,
        {
            if str_eq(name, self.entries[i].0.as_str()) {
                self.entries[i] = (String::from_str(name), tok);
                proof {
                    let s1 = self.entries@;
                    let nv = self.vars@.len() as int;
                    assert(s0[i as int].0@ == name@);
                    assert(s1 == s0.update(i as int, s1[i as int]));
                    assert(forall|j: int| 0 <= j < s1.len() && j != i ==> s1[j] == s0[j]);
                    assert(s1[i as int].0@ == name@);
                    assert forall|p: int| 0 <= p < s1.len() implies s1[p].0@ == s0[p].0@
                        && storable_spec(#[trigger] s1[p].1) && token_in_arena(s1[p].1, nv) by {
                        if p != i {
                            assert(s1[p] == s0[p]);
                            assert(storable_spec(s0[p].1));
                            assert(token_in_arena(s0[p].1, nv));
                        } else {
                            assert(s0[i as int].0@ == name@);
                            assert(s1[i as int].0@ == name@);
                            assert(s1[i as int].1 == tok);
                        }
                    }
                    assert forall|p: int, q: int| 0 <= p < q < s1.len() implies s1[p].0@
                        != s1[q].0@ by {
                        assert(s0[p].0@ != s0[q].0@);
                    }
                    lemma_same_keys_lookup(s0, s1, name@, i as int, tok);
                }
                return ;
            }
            i = i + 1;
        }
        self.entries.push((String::from_str(name), tok));
        proof {
            let s1 = self.entries@;
            assert(forall|j: int| 0 <= j < s0.len() ==> s1[j] == s0[j]);
            assert(s1[s0.len() as int].0@ == name@);
            lemma_push_lookup(s0, s1, name@, tok);
        }
    }

    /// Adds a named constant value to the context.
    pub fn add_const_to_ctx(&mut self, name: &str, val: u64)
        requires
            old(self).wf(),
        ensures
            final(self).wf(),
            final(self).vars == old(self).vars,
            final(self).lookup_spec(name@) == Some(Token::Num(val)),
            forall|k: Seq<char>|
                k != name@ ==> final(self).lookup_spec(k) == old(self).lookup_spec(k),
            forall|k: Seq<char>|
                final(self).contains_key_spec(k) <==> (old(self).contains_key_spec(k) || k
                    == name@),
    {
        self.put(name, Token::Num(val));
    }

    /// Adds a named built-in function to the context.
    pub fn add_func_to_ctx(&mut self, name: &str, kind: FuncKind)
        requires
            old(self).wf(),
        ensures
            final(self).wf(),
            final(self).vars == old(self).vars,
            final(self).lookup_spec(name@) == Some(Token::Func(kind)),
            forall|k: Seq<char>|
                k != name@ ==> final(self).lookup_spec(k) == old(self).lookup_spec(k),
            forall|k: Seq<char>|
                final(self).contains_key_spec(k) <==> (old(self).contains_key_spec(k) || k
                    == name@),
    {
        self.put(name, Token::Func(kind));
    }

    /// Adds a named variable with the given starting value and domain.
    /// A fresh cell is appended to the arena and the name points at it.
    pub fn add_var_with_domain_to_ctx(&mut self, name: &str, val: u64, min: u64, max: u64)
        requires
            old(self).wf(),
        ensures
            final(self).wf(),
            final(self).vars@ == old(self).vars@.push(
                Variable { value: val, min: min, max: max },
            ),
            final(self).lookup_spec(name@) == Some(
                Token::Var(old(self).vars@.len() as usize),
            ),
            forall|k: Seq<char>|
                k != name@ ==> final(self).lookup_spec(k) == old(self).lookup_spec(k),
            forall|k: Seq<char>|
                final(self).contains_key_spec(k) <==> (old(self).contains_key_spec(k) || k
                    == name@),
    {
        let idx = self.vars.len();
        self.vars.push(Variable::new(val, min, max));
        self.put(name, Token::Var(idx));
    }

    /// Adds a named variable with an unbounded domain.
    pub fn add_var_to_ctx(&mut self, name: &str, val: u64)
        requires
            old(self).wf(),
        ensures
            final(self).wf(),
            final(self).vars@ == old(self).vars@.push(
                Variable { value: val, min: F64_NEG_INF, max: F64_POS_INF },
            ),
            final(self).lookup_spec(name@) == Some(
                Token::Var(old(self).vars@.len() as usize),
            ),
            forall|k: Seq<char>|
                k != name@ ==> final(self).lookup_spec(k) == old(self).lookup_spec(k),
            forall|k: Seq<char>|
                final(self).contains_key_spec(k) <==> (old(self).contains_key_spec(k) || k
                    == name@),
    {
        self.add_var_with_domain_to_ctx(name, val, F64_NEG_INF, F64_POS_INF);
    }

    /// Reads the value of the cell at an arena index.
    pub fn read_var(&self, i: usize) -> (r: u64)
        requires
            i < self.vars@.len(),
        ensures
            r == self.vars@[i as int].value,
    {
        self.vars[i].value()
    }

    /// Writes a value into the cell at an arena index, through the clamp.
    pub fn set_var(&mut self, i: usize, v: u64)
        requires
            i < old(self).vars@.len(),
        ensures
            final(self).entries == old(self).entries,
            final(self).vars@ == old(self).vars@.update(
                i as int,
                Variable {
                    value: crate::variable::clamp_spec(
                        v,
                        old(self).vars@[i as int].min,
                        old(self).vars@[i as int].max,
                    ),
                    min: old(self).vars@[i as int].min,
                    max: old(self).vars@[i as int].max,
                },
            ),
    {
        let mut cell = self.vars[i];
        cell.set(v);
        self.vars[i] = cell;
    }

    /// Replaces the domain of the cell at an arena index, leaving its
    /// value untouched.
    pub fn set_var_bounds(&mut self, i: usize, min: u64, max: u64)
        requires
            i < old(self).vars@.len(),
        ensures
            final(self).entries == old(self).entries,
            final(self).vars@ == old(self).vars@.update(
                i as int,
                Variable { value: old(self).vars@[i as int].value, min: min, max: max },
            ),
    {
        let mut cell = self.vars[i];
        cell.min = min;
        cell.max = max;
        self.vars[i] = cell;
    }
}

/// Replacing the value stored at the unique index of a key changes that
/// key's lookup alone.
proof fn lemma_same_keys_lookup(
    s0: Seq<(String, Token)>,
    s1: Seq<(String, Token)>,
    name: Seq<char>,
    i: int,
    tok: Token,
)
    requires
        s1.len() == s0.len(),
        0 <= i < s0.len(),
        forall|j: int| 0 <= j < s0.len() && j != i ==> s1[j] == s0[j],
        s0[i].0@ == name,
        s1[i].0@ == name,
        s1[i].1 == tok,
        forall|p: int, q: int| 0 <= p < q < s0.len() ==> s0[p].0@ != s0[q].0@,
    ensures
        lookup_entries_spec(s1, name) == Some(tok),
        forall|k: Seq<char>|
            k != name ==> lookup_entries_spec(s1, k) == lookup_entries_spec(s0, k),
        forall|k: Seq<char>| has_key_spec(s1, k) <==> (has_key_spec(s0, k) || k == name),
{
    assert forall|j: int| 0 <= j < s0.len() implies s1[j].0@ == s0[j].0@ by {}
    assert(has_key_spec(s1, name));
    let w = key_index_spec(s1, name);
    assert(0 <= w < s1.len() && s1[w].0@ == name);
    assert(w == i);
    assert forall|k: Seq<char>| k != name implies lookup_entries_spec(s1, k)
        == lookup_entries_spec(s0, k) by {
        if has_key_spec(s0, k) {
            let j = key_index_spec(s0, k);
            assert(0 <= j < s0.len() && s0[j].0@ == k);
            assert(s1[j].0@ == k);
            assert(has_key_spec(s1, k));
            let j1 = key_index_spec(s1, k);
            assert(0 <= j1 < s1.len() && s1[j1].0@ == k);
            assert(j1 == j);
            assert(j != i);
        } else {
            assert(forall|j: int| 0 <= j < s1.len() ==> s1[j].0@ != k);
            assert(!has_key_spec(s1, k));
        }
    }
}

/// Appending an entry with a fresh key adds that key's lookup alone.
proof fn lemma_push_lookup(
    s0: Seq<(String, Token)>,
    s1: Seq<(String, Token)>,
    name: Seq<char>,
    tok: Token,
)
    requires
        s1.len() == s0.len() + 1,
        forall|j: int| 0 <= j < s0.len() ==> s1[j] == s0[j],
        s1[s0.len() as int].0@ == name,
        s1[s0.len() as int].1 == tok,
        forall|j: int| 0 <= j < s0.len() ==> s0[j].0@ != name,
        forall|p: int, q: int| 0 <= p < q < s0.len() ==> s0[p].0@ != s0[q].0@,
    ensures
        lookup_entries_spec(s1, name) == Some(tok),
        forall|k: Seq<char>|
            k != name ==> lookup_entries_spec(s1, k) == lookup_entries_spec(s0, k),
        forall|k: Seq<char>| has_key_spec(s1, k) <==> (has_key_spec(s0, k) || k == name),
{
    assert(has_key_spec(s1, name));
    let w = key_index_spec(s1, name);
    assert(0 <= w < s1.len() && s1[w].0@ == name);
    assert(w == s0.len());
    assert forall|k: Seq<char>| k != name implies lookup_entries_spec(s1, k)
        == lookup_entries_spec(s0, k) by {
        if has_key_spec(s0, k) {
            let j = key_index_spec(s0, k);
            assert(0 <= j < s0.len() && s0[j].0@ == k);
            assert(s1[j].0@ == k);
            assert(has_key_spec(s1, k));
            let j1 = key_index_spec(s1, k);
            assert(0 <= j1 < s1.len() && s1[j1].0@ == k);
            if j1 == s0.len() {
                assert(s1[j1].0@ == name);
                assert(false);
            }
            assert(s1[j1] == s0[j1]);
            assert(s0[j1].0@ == k);
            if j1 < j {
                assert(s0[j1].0@ != s0[j].0@);
            }
            if j < j1 {
                assert(s0[j].0@ != s0[j1].0@);
            }
            assert(j1 == j);
        } else {
            assert forall|j: int| 0 <= j < s1.len() implies s1[j].0@ != k by {
                if j < s0.len() {
                    assert(s1[j] == s0[j]);
                }
            }
            assert(!has_key_spec(s1, k));
        }
    }
}

/// The binary64 pattern of the circle constant pi.
pub const F64_PI: u64 = 0x4009_21FB_5444_2D18;

/// The binary64 pattern of Euler's number.
pub const F64_E: u64 = 0x4005_BF0A_8B14_5769;

/// The contents of the default context: the fourteen built-in
/// functions, the two constants, and nothing else; no variable cells.
pub open spec fn default_context_spec(c: Context) -> bool {
    &&& c.lookup_spec("if"@) == Some(Token::Func(FuncKind::If))
    &&& c.lookup_spec("sin"@) == Some(Token::Func(FuncKind::Sin))
    &&& c.lookup_spec("cos"@) == Some(Token::Func(FuncKind::Cos))
    &&& c.lookup_spec("tan"@) == Some(Token::Func(FuncKind::Tan))
    &&& c.lookup_spec("arcsin"@) == Some(Token::Func(FuncKind::Arcsin))
    &&& c.lookup_spec("arccos"@) == Some(Token::Func(FuncKind::Arccos))
    &&& c.lookup_spec("arctan"@) == Some(Token::Func(FuncKind::Arctan))
    &&& c.lookup_spec("sinh"@) == Some(Token::Func(FuncKind::Sinh))
    &&& c.lookup_spec("cosh"@) == Some(Token::Func(FuncKind::Cosh))
    &&& c.lookup_spec("tanh"@) == Some(Token::Func(FuncKind::Tanh))
    &&& c.lookup_spec("ln"@) == Some(Token::Func(FuncKind::Ln))
    &&& c.lookup_spec("log10"@) == Some(Token::Func(FuncKind::Log10))
    &&& c.lookup_spec("log"@) == Some(Token::Func(FuncKind::Log))
    &&& c.lookup_spec("abs"@) == Some(Token::Func(FuncKind::Abs))
    &&& c.lookup_spec("pi"@) == Some(Token::Num(F64_PI))
    &&& c.lookup_spec("e"@) == Some(Token::Num(F64_E))
    &&& forall|k: Seq<char>|
        c.contains_key_spec(k) ==> (k == "if"@ || k == "sin"@ || k == "cos"@ || k == "tan"@ || k
            == "arcsin"@ || k == "arccos"@ || k == "arctan"@ || k == "sinh"@ || k == "cosh"@ || k
            == "tanh"@ || k == "ln"@ || k == "log10"@ || k == "log"@ || k == "abs"@ || k == "pi"@
            || k == "e"@)
    &&& c.vars@.len() == 0
}

/// Initializes a context with the built-in trigonometric, hyperbolic,
/// logarithmic, conditional and absolute-value functions, and the
/// constants `pi` and `e`.
#[verifier::rlimit(100)]
pub fn new_context() -> (c: Context)
    ensures
        c.wf(),
        c.vars@.len() == 0,
        default_context_spec(c),
{
    proof {
        reveal_strlit("if");
        reveal_strlit("sin");
        reveal_strlit("cos");
        reveal_strlit("tan");
        reveal_strlit("arcsin");
        reveal_strlit("arccos");
        reveal_strlit("arctan");
        reveal_strlit("sinh");
        reveal_strlit("cosh");
        reveal_strlit("tanh");
        reveal_strlit("ln");
        reveal_strlit("log10");
        reveal_strlit("log");
        reveal_strlit("abs");
        reveal_strlit("pi");
        reveal_strlit("e");
        assert("e"@.len() == 1);
        assert("if"@.len() == 2 && "pi"@.len() == 2 && "ln"@.len() == 2);
        assert("if"@[0] == 'i' && "pi"@[0] == 'p' && "ln"@[0] == 'l');
        assert("sin"@.len() == 3 && "cos"@.len() == 3 && "tan"@.len() == 3 && "abs"@.len() == 3
            && "log"@.len() == 3);
        assert("sin"@[0] == 's' && "cos"@[0] == 'c' && "tan"@[0] == 't' && "abs"@[0] == 'a'
            && "log"@[0] == 'l');
        assert("sinh"@.len() == 4 && "cosh"@.len() == 4 && "tanh"@.len() == 4);
        assert("sinh"@[0] == 's' && "cosh"@[0] == 'c' && "tanh"@[0] == 't');
        assert("log10"@.len() == 5);
        assert("arcsin"@.len() == 6 && "arccos"@.len() == 6 && "arctan"@.len() == 6);
        assert("arcsin"@[3] == 's' && "arccos"@[3] == 'c' && "arctan"@[3] == 't');
    }
    let mut c = Context::new();
    c.add_func_to_ctx("if", FuncKind::If);
    c.add_func_to_ctx("sin", FuncKind::Sin);
    c.add_func_to_ctx("cos", FuncKind::Cos);
    c.add_func_to_ctx("tan", FuncKind::Tan);
    c.add_func_to_ctx("arcsin", FuncKind::Arcsin);
    c.add_func_to_ctx("arccos", FuncKind::Arccos);
    c.add_func_to_ctx("arctan", FuncKind::Arctan);
    c.add_func_to_ctx("sinh", FuncKind::Sinh);
    c.add_func_to_ctx("cosh", FuncKind::Cosh);
    c.add_func_to_ctx("tanh", FuncKind::Tanh);
    c.add_func_to_ctx("ln", FuncKind::Ln);
    c.add_func_to_ctx("log10", FuncKind::Log10);
    c.add_func_to_ctx("log", FuncKind::Log);
    c.add_func_to_ctx("abs", FuncKind::Abs);
    c.add_const_to_ctx("pi", F64_PI);
    c.add_const_to_ctx("e", F64_E);
    c
}

} // verus!
