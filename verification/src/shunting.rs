//! The tokenizer and the shunting-yard reduction from infix expressions
//! to postfix (RPN) token sequences.
//!
//! An expression string is first padded with spaces around every
//! operator, parenthesis and comma, then split into words, and the words
//! are reduced with the classic shunting-yard algorithm: operators wait
//! on a stack ordered by precedence, `^` associating to the right, and a
//! lexical flag turns a unary minus into a multiplication by -1.
//! Identifiers are resolved through the [`Context`] as the reduction
//! runs.
use vstd::prelude::*;
use crate::arith::parse_number;
use crate::context::{Context, Token, token_in_arena, key_index_spec};
use crate::errors::ShuntingYardError;
use crate::fp::F64_NEG_ONE;

verus! {

/// Relies on `String::push`: appends exactly the one character.
pub assume_specification[ String::push ](s: &mut String, c: char)
    ensures
        final(s)@ == old(s)@.push(c),
;

/// The characters of a string as a vector.
pub fn str_chars(s: &str) -> (v: Vec<char>)
    ensures
        v@ == s@,
{
    let n = s.unicode_len();
    let mut v: Vec<char> = Vec::new();
    let mut i: usize = 0;
    while i < n
        invariant
            i <= n,
            n == s@.len(),
            v@ == s@.take(i as int),
        decreases n - i,
    {
        v.push(s.get_char(i));
        proof {
            assert(s@.take(i as int).push(s@[i as int]) =~= s@.take(i + 1));
        }
        i = i + 1;
    }
    proof {
        assert(s@.take(n as int) =~= s@);
    }
    v
}

/// Builds a string from a range of a character vector.
pub fn chars_to_string(v: &Vec<char>, from: usize, to: usize) -> (r: String)
    requires
        from <= to <= v@.len(),
    ensures
        r@ == v@.subrange(from as int, to as int),
{
    let mut r = String::new();
    let mut i: usize = from;
    while i < to
        invariant
            from <= i <= to <= v@.len(),
            r@ == v@.subrange(from as int, i as int),
        decreases to - i,
    {
        r.push(v[i]);
        proof {
            assert(v@.subrange(from as int, i as int).push(v@[i as int]) =~= v@.subrange(
                from as int,
                i + 1,
            ));
        }
        i = i + 1;
    }
    r
}

/// The characters that get space padding: operators, parentheses and
/// the comma.
pub open spec fn is_punct_char_spec(c: char) -> bool {
    c == '(' || c == ')' || c == '^' || c == '*' || c == '/' || c == '+' || c == '-' || c == ','
}

/// Executable test for [`is_punct_char_spec`].
pub fn is_punct_char(c: char) -> (r: bool)
    ensures
        r == is_punct_char_spec(c),
{
    c == '(' || c == ')' || c == '^' || c == '*' || c == '/' || c == '+' || c == '-' || c == ','
}

/// The Unicode whitespace characters, as string trimming sees them.
pub open spec fn is_ws_char_spec(c: char) -> bool {
    ||| c == ' '
    ||| c == '\u{9}'
    ||| c == '\u{A}'
    ||| c == '\u{B}'
    ||| c == '\u{C}'
    ||| c == '\u{D}'
    ||| c == '\u{85}'
    ||| c == '\u{A0}'
    ||| c == '\u{1680}'
    ||| ('\u{2000}' <= c && c <= '\u{200A}')
    ||| c == '\u{2028}'
    ||| c == '\u{2029}'
    ||| c == '\u{202F}'
    ||| c == '\u{205F}'
    ||| c == '\u{3000}'
}

/// Executable test for [`is_ws_char_spec`].
pub fn is_ws_char(c: char) -> (r: bool)
    ensures
        r == is_ws_char_spec(c),
{
    c == ' ' || c == '\u{9}' || c == '\u{A}' || c == '\u{B}' || c == '\u{C}' || c == '\u{D}' || c
        == '\u{85}' || c == '\u{A0}' || c == '\u{1680}' || ('\u{2000}' <= c && c <= '\u{200A}') || c
        == '\u{2028}' || c == '\u{2029}' || c == '\u{202F}' || c == '\u{205F}' || c == '\u{3000}'
}

/// What space padding makes of one character.
pub open spec fn pad_char_spec(c: char) -> Seq<char> {
    if is_punct_char_spec(c) {
        seq![' ', c, ' ']
    } else {
        seq![c]
    }
}

/// The whole expression with padding applied to each character.
pub open spec fn expand_spec(s: Seq<char>) -> Seq<char>
    decreases s.len(),
{
    if s.len() == 0 {
        Seq::empty()
    } else {
        pad_char_spec(s[0]) + expand_spec(s.drop_first())
    }
}

proof fn lemma_expand_push(s: Seq<char>, c: char)
    ensures
        expand_spec(s.push(c)) == expand_spec(s) + pad_char_spec(c),
    decreases s.len(),
{
    if s.len() == 0 {
        assert(s.push(c).drop_first() =~= s);
        assert(expand_spec(s.push(c)) =~= expand_spec(s) + pad_char_spec(c));
    } else {
        assert(s.push(c).drop_first() =~= s.drop_first().push(c));
        lemma_expand_push(s.drop_first(), c);
        assert(expand_spec(s.push(c)) =~= expand_spec(s) + pad_char_spec(c));
    }
}

/// The string with leading whitespace removed.
pub open spec fn trim_front_spec(s: Seq<char>) -> Seq<char>
    decreases s.len(),
{
    if s.len() > 0 && is_ws_char_spec(s[0]) {
        trim_front_spec(s.drop_first())
    } else {
        s
    }
}

/// The string with trailing whitespace removed.
pub open spec fn trim_back_spec(s: Seq<char>) -> Seq<char>
    decreases s.len(),
{
    if s.len() > 0 && is_ws_char_spec(s[s.len() - 1]) {
        trim_back_spec(s.drop_last())
    } else {
        s
    }
}

/// The string with whitespace removed at both ends.
pub open spec fn trim_spec(s: Seq<char>) -> Seq<char> {
    trim_back_spec(trim_front_spec(s))
}

proof fn lemma_trim_front(s: Seq<char>, lo: int)
    requires
        0 <= lo <= s.len(),
        forall|j: int| 0 <= j < lo ==> is_ws_char_spec(s[j]),
        lo == s.len() || !is_ws_char_spec(s[lo]),
    ensures
        trim_front_spec(s) == s.subrange(lo, s.len() as int),
    decreases lo,
{
    if lo == 0 {
        assert(s.subrange(0, s.len() as int) =~= s);
    } else {
        lemma_trim_front(s.drop_first(), lo - 1);
        assert(s.drop_first().subrange(lo - 1, s.len() - 1) =~= s.subrange(lo, s.len() as int));
    }
}

proof fn lemma_trim_back(s: Seq<char>, k: int)
    requires
        0 <= k <= s.len(),
        forall|j: int| k <= j < s.len() ==> is_ws_char_spec(s[j]),
        k == 0 || !is_ws_char_spec(s[k - 1]),
    ensures
        trim_back_spec(s) == s.take(k),
    decreases s.len() - k,
{
    if k == s.len() {
        assert(s.take(k) =~= s);
    } else {
        lemma_trim_back(s.drop_last(), k);
        assert(s.drop_last().take(k) =~= s.take(k));
    }
}

/// What [`punctuate`] returns: the padded expression, trimmed.
pub open spec fn punctuate_spec(s: Seq<char>) -> Seq<char> {
    trim_spec(expand_spec(s))
}

/// Adds whitespace around every operator, parenthesis and comma of an
/// expression, to delimit its words.
pub fn punctuate(expr: &str) -> (r: String)
    ensures
        r@ == punctuate_spec(expr@),
{
    let cs = str_chars(expr);
    let n = cs.len();
    let mut out: Vec<char> = Vec::new();
    let mut i: usize = 0;
    while i < n
        invariant
            i <= n,
            n == cs@.len(),
            cs@ == expr@,
            out@ == expand_spec(cs@.take(i as int)),
        decreases n - i,
    {
        let c = cs[i];
        if is_punct_char(c) {
            out.push(' ');
            out.push(c);
            out.push(' ');
        } else {
            out.push(c);
        }
        proof {
            lemma_expand_push(cs@.take(i as int), c);
            assert(cs@.take(i as int).push(c) =~= cs@.take(i + 1));
            assert(out@ =~= expand_spec(cs@.take(i + 1)));
        }
        i = i + 1;
    }
    proof {
        assert(cs@.take(n as int) =~= cs@);
    }
    let len = out.len();
    let mut lo: usize = 0;
    while lo < len && is_ws_char(out[lo])
        invariant
            lo <= len,
            len == out@.len(),
            forall|j: int| 0 <= j < lo ==> is_ws_char_spec(out@[j]),
        decreases len - lo,
    {
        lo = lo + 1;
    }
    let mut hi: usize = len;
    while hi > lo && is_ws_char(out[hi - 1])
        invariant
            lo <= hi <= len,
            len == out@.len(),
            forall|j: int| hi <= j < len ==> is_ws_char_spec(out@[j]),
        decreases hi,
    {
        hi = hi - 1;
    }
    proof {
        lemma_trim_front(out@, lo as int);
        let t = out@.subrange(lo as int, len as int);
        assert forall|j: int| (hi - lo) <= j < t.len() implies is_ws_char_spec(t[j]) by {
            assert(t[j] == out@[lo + j]);
        }
        if hi > lo {
            assert(t[hi - lo - 1] == out@[hi - 1]);
        }
        lemma_trim_back(t, hi - lo);
        assert(t.take(hi - lo) =~= out@.subrange(lo as int, hi as int));
    }
    chars_to_string(&out, lo, hi)
}

/// The length of the leading run of non-space characters.
pub open spec fn word_len_spec(s: Seq<char>) -> int
    decreases s.len(),
{
    if s.len() == 0 || s[0] == ' ' {
        0
    } else {
        1 + word_len_spec(s.drop_first())
    }
}

proof fn lemma_word_len_bounds(s: Seq<char>)
    ensures
        0 <= word_len_spec(s) <= s.len(),
        s.len() > 0 && s[0] != ' ' ==> word_len_spec(s) >= 1,
    decreases s.len(),
{
    if s.len() > 0 && s[0] != ' ' {
        lemma_word_len_bounds(s.drop_first());
    }
}

proof fn lemma_word_len_is(s: Seq<char>, k: int)
    requires
        0 <= k <= s.len(),
        forall|j: int| 0 <= j < k ==> s[j] != ' ',
        k == s.len() || s[k] == ' ',
    ensures
        word_len_spec(s) == k,
    decreases k,
{
    if k > 0 {
        lemma_word_len_is(s.drop_first(), k - 1);
    }
}

/// The words of a space-separated string, empty words dropped.
pub open spec fn words_spec(s: Seq<char>) -> Seq<Seq<char>>
    decreases s.len(),
    when s.len() >= 0
    via words_spec_dec
{
    if s.len() == 0 {
        Seq::empty()
    } else if s[0] == ' ' {
        words_spec(s.drop_first())
    } else {
        seq![s.take(word_len_spec(s))] + words_spec(s.skip(word_len_spec(s)))
    }
}

#[via_fn]
proof fn words_spec_dec(s: Seq<char>) {
    if s.len() > 0 && s[0] != ' ' {
        lemma_word_len_bounds(s);
    }
}

/// Splits a string into its space-separated words.
pub fn to_words(s: &str) -> (r: Vec<String>)
    ensures
        r@.map_values(|w: String| w@) == words_spec(s@),
{
    let cs = str_chars(s);
    let n = cs.len();
    let mut words: Vec<String> = Vec::new();
    let mut i: usize = 0;
    proof {
        assert(cs@.skip(0) =~= cs@);
        assert(words@.map_values(|w: String| w@) + words_spec(cs@) =~= words_spec(cs@));
    }
    while i < n
        invariant
            i <= n,
            n == cs@.len(),
            cs@ == s@,
            words@.map_values(|w: String| w@) + words_spec(cs@.skip(i as int)) == words_spec(
                cs@,
            ),
        decreases n - i,
    {
        if cs[i] == ' ' {
            proof {
                assert(cs@.skip(i as int).drop_first() =~= cs@.skip(i + 1));
            }
            i = i + 1;
        } else {
            let start = i;
            let mut w = String::new();
            while i < n && cs[i] != ' '
                invariant
                    start <= i <= n,
                    n == cs@.len(),
                    w@ == cs@.subrange(start as int, i as int),
                    forall|j: int| start <= j < i ==> cs@[j] != ' ',
                decreases n - i,
            {
                w.push(cs[i]);
                proof {
                    assert(cs@.subrange(start as int, i as int).push(cs@[i as int])
                        =~= cs@.subrange(start as int, i + 1));
                }
                i = i + 1;
            }
            proof {
                let t = cs@.skip(start as int);
                assert forall|j: int| 0 <= j < (i - start) implies t[j] != ' ' by {
                    assert(t[j] == cs@[start + j]);
                }
                if i < n {
                    assert(t[i - start] == cs@[i as int]);
                }
                lemma_word_len_is(t, i - start);
                assert(t.take(i - start) =~= cs@.subrange(start as int, i as int));
                assert(t.skip(i - start) =~= cs@.skip(i as int));
                assert(words_spec(t) == seq![w@] + words_spec(cs@.skip(i as int)));
                assert((words@ + seq![w]).map_values(|x: String| x@) =~= words@.map_values(
                    |x: String| x@,
                ).push(w@));
                assert(words@.map_values(|x: String| x@).push(w@) + words_spec(cs@.skip(i as int))
                    =~= words@.map_values(|x: String| x@) + words_spec(t));
                assert(words@.push(w) =~= words@ + seq![w]);
            }
            words.push(w);
        }
    }
    proof {
        assert(words@.map_values(|w: String| w@) + words_spec(cs@.skip(n as int)) =~= words@
            .map_values(|w: String| w@));
    }
    words
}

/// A character that may start an identifier. The two non-ASCII cases
/// are the characters that case folding maps onto the ASCII letters:
/// the long s and the Kelvin sign.
pub open spec fn is_ident_start_spec(c: char) -> bool {
    ('a' <= c && c <= 'z') || ('A' <= c && c <= 'Z') || c == '\u{17F}' || c == '\u{212A}'
}

/// A character that may continue an identifier.
pub open spec fn is_ident_char_spec(c: char) -> bool {
    is_ident_start_spec(c) || ('0' <= c && c <= '9') || c == '_'
}

/// The length of the leading run of identifier characters.
pub open spec fn ident_len_spec(s: Seq<char>) -> int
    decreases s.len(),
{
    if s.len() == 0 || !is_ident_char_spec(s[0]) {
        0
    } else {
        1 + ident_len_spec(s.drop_first())
    }
}

proof fn lemma_ident_len_bounds(s: Seq<char>)
    ensures
        0 <= ident_len_spec(s) <= s.len(),
        s.len() > 0 && is_ident_char_spec(s[0]) ==> ident_len_spec(s) >= 1,
    decreases s.len(),
{
    if s.len() > 0 && is_ident_char_spec(s[0]) {
        lemma_ident_len_bounds(s.drop_first());
    }
}

/// The identifiers of a string: the maximal runs of identifier
/// characters that begin with an identifier-starting character, in
/// order of occurrence.
pub open spec fn identifiers_spec(s: Seq<char>) -> Seq<Seq<char>>
    decreases s.len(),
    when s.len() >= 0
    via identifiers_spec_dec
{
    if s.len() == 0 {
        Seq::empty()
    } else if is_ident_start_spec(s[0]) {
        seq![s.take(ident_len_spec(s))] + identifiers_spec(s.skip(ident_len_spec(s)))
    } else {
        identifiers_spec(s.drop_first())
    }
}

#[via_fn]
proof fn identifiers_spec_dec(s: Seq<char>) {
    if s.len() > 0 && is_ident_start_spec(s[0]) {
        lemma_ident_len_bounds(s);
    }
}

/// Identifies and returns the legal variable names found in an
/// expression string: each maximal run matching `[A-Za-z][A-Za-z0-9_]*`,
/// case folding included.
///
/// Relies on `regex`: `find_iter` with the pattern `(?i)[a-z][a-z0-9_]*`
/// yields exactly the leftmost-first maximal matches, which are the
/// runs that [`identifiers_spec`] describes.
#[verifier::external_body]
pub fn get_legal_variables_iter(text: &str) -> (r: Vec<String>)
    ensures
        r@.map_values(|w: String| w@) == identifiers_spec(text@),
{
    let re = regex::Regex::new("(?i)[a-z][a-z0-9_]*").unwrap();
    re.find_iter(text).map(|m| m.as_str().to_owned()).collect()
}

/// The precedence table of the shunting-yard reduction, over words.
pub open spec fn precedence_spec(w: Seq<char>) -> int {
    if w == "^"@ {
        4
    } else if w == "/"@ || w == "*"@ {
        3
    } else if w == "-"@ || w == "+"@ {
        2
    } else {
        1
    }
}

/// Returns the precedence of a binary operator for the shunting-yard
/// reduction.
pub fn precedence(op: &str) -> (r: i32)
    ensures
        r == precedence_spec(op@),
{
    if crate::context::str_eq(op, "^") {
        4
    } else if crate::context::str_eq(op, "/") || crate::context::str_eq(op, "*") {
        3
    } else if crate::context::str_eq(op, "-") || crate::context::str_eq(op, "+") {
        2
    } else {
        proof {
            reveal_strlit("^");
            reveal_strlit("/");
            reveal_strlit("*");
            reveal_strlit("-");
            reveal_strlit("+");
        }
        1
    }
}

/// Whether the operator word `o2`, waiting on the stack, must be popped
/// before the incoming operator word `o1` is pushed.
pub open spec fn prec_check_spec(o1: Seq<char>, o2: Seq<char>) -> bool {
    o2 != "("@ && (precedence_spec(o2) > precedence_spec(o1) || (precedence_spec(o2)
        == precedence_spec(o1) && o1 != "^"@))
}

/// Checks operator precedences for the shunting-yard reduction: equal
/// precedence pops for every operator except the right-associative `^`.
pub fn prec_check(o1: &str, o2: &str) -> (r: bool)
    ensures
        r == prec_check_spec(o1@, o2@),
{
    let check1 = !crate::context::str_eq(o2, "(");
    let p1 = precedence(o1);
    let p2 = precedence(o2);
    let check2 = p2 > p1;
    let check3 = p2 == p1 && !crate::context::str_eq(o1, "^");
    check1 && (check2 || check3)
}

/// The precedence of an operator token.
pub open spec fn prec_of_token_spec(t: Token) -> int {
    match t {
        Token::Exp => 4,
        Token::Div => 3,
        Token::Mul => 3,
        Token::Minus => 2,
        Token::Plus => 2,
        _ => 1,
    }
}

/// [`prec_check_spec`] over tokens instead of words.
pub open spec fn prec_check_tok_spec(o1: Token, o2: Token) -> bool {
    !(o2 is LeftParenthesis) && (prec_of_token_spec(o2) > prec_of_token_spec(o1) || (
    prec_of_token_spec(o2) == prec_of_token_spec(o1) && !(o1 is Exp)))
}

fn prec_check_tokens(o1: Token, o2: Token) -> (r: bool)
    ensures
        r == prec_check_tok_spec(o1, o2),
{
    let p1: i32 = match o1 {
        Token::Exp => 4,
        Token::Div => 3,
        Token::Mul => 3,
        Token::Minus => 2,
        Token::Plus => 2,
        _ => 1,
    };
    let p2: i32 = match o2 {
        Token::Exp => 4,
        Token::Div => 3,
        Token::Mul => 3,
        Token::Minus => 2,
        Token::Plus => 2,
        _ => 1,
    };
    let is_paren = matches!(o2, Token::LeftParenthesis);
    let o1_exp = matches!(o1, Token::Exp);
    !is_paren && (p2 > p1 || (p2 == p1 && !o1_exp))
}

/// The operator token a word denotes, if any.
pub open spec fn op_of_word_spec(w: Seq<char>) -> Option<Token> {
    if w == "^"@ {
        Some(Token::Exp)
    } else if w == "/"@ {
        Some(Token::Div)
    } else if w == "*"@ {
        Some(Token::Mul)
    } else if w == "+"@ {
        Some(Token::Plus)
    } else if w == "-"@ {
        Some(Token::Minus)
    } else {
        None
    }
}

/// A comma flushes operators into the queue down to the enclosing
/// parenthesis, which stays on the stack.
pub open spec fn flush_to_paren_spec(stack: Seq<Token>, queue: Seq<Token>) -> (Seq<Token>, Seq<
    Token,
>)
    decreases stack.len(),
{
    if stack.len() == 0 || stack.last() is LeftParenthesis {
        (stack, queue)
    } else {
        flush_to_paren_spec(stack.drop_last(), queue.push(stack.last()))
    }
}

/// A closing parenthesis pops operators into the queue and discards
/// the matching open parenthesis; `None` when there is none.
pub open spec fn close_paren_spec(stack: Seq<Token>, queue: Seq<Token>) -> Option<
    (Seq<Token>, Seq<Token>),
>
    decreases stack.len(),
{
    if stack.len() == 0 {
        None
    } else if stack.last() is LeftParenthesis {
        Some((stack.drop_last(), queue))
    } else {
        close_paren_spec(stack.drop_last(), queue.push(stack.last()))
    }
}

/// An incoming operator pops the waiting operators of no lower
/// standing into the queue.
pub open spec fn pop_ops_spec(o1: Token, stack: Seq<Token>, queue: Seq<Token>) -> (Seq<Token>, Seq<
    Token,
>)
    decreases stack.len(),
{
    if stack.len() == 0 || !prec_check_tok_spec(o1, stack.last()) {
        (stack, queue)
    } else {
        pop_ops_spec(o1, stack.drop_last(), queue.push(stack.last()))
    }
}

/// At the end of the words the stack drains into the queue; an open
/// parenthesis still waiting is an unclosed parenthesis.
pub open spec fn drain_spec(stack: Seq<Token>, queue: Seq<Token>) -> Result<
    Seq<Token>,
    ShuntingYardError,
>
    decreases stack.len(),
{
    if stack.len() == 0 {
        Ok(queue)
    } else if stack.last() is LeftParenthesis {
        Err(ShuntingYardError::UnclosedParenthesis)
    } else {
        drain_spec(stack.drop_last(), queue.push(stack.last()))
    }
}

/// The shunting-yard reduction itself, one word at a time, carrying
/// the operator stack, the output queue and the unary-minus flag.
pub open spec fn shunt_spec(
    words: Seq<Seq<char>>,
    i: int,
    stack: Seq<Token>,
    queue: Seq<Token>,
    unary: bool,
    ctx: crate::context::Context,
) -> Result<Seq<Token>, ShuntingYardError>
    decreases words.len() - i,
    when 0 <= i <= words.len()
{
    if i == words.len() {
        drain_spec(stack, queue)
    } else {
        let w = words[i];
        if w == ","@ {
            let sq = flush_to_paren_spec(stack, queue);
            shunt_spec(words, i + 1, sq.0, sq.1, true, ctx)
        } else if w == "("@ {
            shunt_spec(words, i + 1, stack.push(Token::LeftParenthesis), queue, true, ctx)
        } else if w == ")"@ {
            match close_paren_spec(stack, queue) {
                None => Err(ShuntingYardError::UnclosedParenthesis),
                Some(sq) => shunt_spec(words, i + 1, sq.0, sq.1, false, ctx),
            }
        } else {
            match op_of_word_spec(w) {
                Some(o1) => {
                    if unary && o1 is Minus {
                        shunt_spec(
                            words,
                            i + 1,
                            stack.push(Token::Mul),
                            queue.push(Token::Num(F64_NEG_ONE)),
                            true,
                            ctx,
                        )
                    } else {
                        let sq = pop_ops_spec(o1, stack, queue);
                        shunt_spec(words, i + 1, sq.0.push(o1), sq.1, true, ctx)
                    }
                },
                None => {
                    match crate::arith::parsed_number_spec(w) {
                        Some(bits) => shunt_spec(
                            words,
                            i + 1,
                            stack,
                            queue.push(Token::Num(bits)),
                            false,
                            ctx,
                        ),
                        None => {
                            match ctx.lookup_spec(w) {
                                Some(Token::Num(v)) => shunt_spec(
                                    words,
                                    i + 1,
                                    stack,
                                    queue.push(Token::Num(v)),
                                    false,
                                    ctx,
                                ),
                                Some(Token::Var(vi)) => shunt_spec(
                                    words,
                                    i + 1,
                                    stack,
                                    queue.push(Token::Var(vi)),
                                    false,
                                    ctx,
                                ),
                                Some(Token::Func(k)) => shunt_spec(
                                    words,
                                    i + 1,
                                    stack.push(Token::Func(k)),
                                    queue,
                                    true,
                                    ctx,
                                ),
                                Some(_) => Err(ShuntingYardError::ContextMutation),
                                None => Err(ShuntingYardError::UnknownToken),
                            }
                        },
                    }
                },
            }
        }
    }
}

/// What [`rpnify`] returns: the shunting-yard reduction of the
/// expression's words, resolved through the context.
pub open spec fn rpnify_spec(expr: Seq<char>, ctx: crate::context::Context) -> Result<
    Seq<Token>,
    ShuntingYardError,
> {
    shunt_spec(
        words_spec(punctuate_spec(expr)),
        0,
        Seq::empty(),
        Seq::empty(),
        true,
        ctx,
    )
}

/// A token sequence the postfix evaluator can run: no structural
/// parenthesis or comma tokens, and every variable index inside the
/// arena of `nvars` cells.
pub open spec fn rpn_wf_tokens(s: Seq<Token>, nvars: int) -> bool {
    forall|i: int|
        0 <= i < s.len() ==> !((#[trigger] s[i]) is LeftParenthesis) && !(s[i] is Comma)
            && token_in_arena(s[i], nvars)
}

/// A token the shunting-yard reduction may hold on its operator stack:
/// an open parenthesis, a binary operator, or a function.
pub open spec fn stack_token_ok(t: Token) -> bool {
    t is LeftParenthesis || t is Exp || t is Mul || t is Div || t is Plus || t is Minus
        || t is Func
}

/// Reduces an infix expression string to a postfix token sequence with
/// the shunting-yard algorithm, resolving identifiers through the
/// context as it goes.
///
/// A unary minus becomes a multiplication by -1. A closing parenthesis
/// without a matching open one, and an open parenthesis still on the
/// stack when the words run out, are reported as unclosed parentheses.
/// A word that neither parses as a number nor appears in the context is
/// an unknown token.
pub fn rpnify(expr: &str, context: &Context) -> (r: Result<Vec<Token>, ShuntingYardError>)
    requires
        context.wf(),
    ensures
        r matches Ok(q) ==> rpn_wf_tokens(q@, context.vars@.len() as int),
        r matches Err(e) ==> (e == ShuntingYardError::UnclosedParenthesis || e
            == ShuntingYardError::UnknownToken),
        r matches Ok(q) ==> rpnify_spec(expr@, *context) == Ok::<Seq<Token>, ShuntingYardError>(
            q@,
        ),
        r matches Err(e) ==> rpnify_spec(expr@, *context) == Err::<Seq<Token>, ShuntingYardError>(
            e,
        ),
{
    let p = punctuate(expr);
    let words = to_words(p.as_str());
    let ghost words_v = words@.map_values(|w: String| w@);
    let nw = words.len();
    let mut stack: Vec<Token> = Vec::new();
    let mut queue: Vec<Token> = Vec::new();
    let mut unary: bool = true;
    let mut idx: usize = 0;
    let ghost target = shunt_spec(
        words_v,
        0,
        Seq::empty(),
        Seq::empty(),
        true,
        *context,
    );
    proof {
        assert(words_v == words_spec(punctuate_spec(expr@)));
        assert(target == rpnify_spec(expr@, *context));
    }
    while idx < nw
        invariant
            context.wf(),
            idx <= nw,
            nw == words@.len(),
            words_v == words@.map_values(|w: String| w@),
            rpn_wf_tokens(queue@, context.vars@.len() as int),
            forall|i: int| 0 <= i < stack@.len() ==> stack_token_ok(#[trigger] stack@[i]),
            shunt_spec(words_v, idx as int, stack@, queue@, unary, *context) == target,
            target == rpnify_spec(expr@, *context),
        decreases nw - idx,
    {
        let w: &String = &words[idx];
        proof {
            assert(w@ == words_v[idx as int]);
        }
        let ghost s_in = stack@;
        let ghost q_in = queue@;
        let ghost u_in = unary;
        if crate::context::str_eq(w.as_str(), ",") {
            // flush operators down to the enclosing parenthesis, which stays
            while stack.len() > 0 && !is_lparen(stack[stack.len() - 1])
                invariant
                    context.wf(),
                    rpn_wf_tokens(queue@, context.vars@.len() as int),
                    forall|i: int| 0 <= i < stack@.len() ==> stack_token_ok(#[trigger] stack@[i]),
                    flush_to_paren_spec(stack@, queue@) == flush_to_paren_spec(s_in, q_in),
                decreases stack@.len(),
            {
                let top = stack[stack.len() - 1];
                stack.pop();
                queue.push(top);
            }
            proof {
                assert(flush_to_paren_spec(s_in, q_in) == (stack@, queue@));
            }
            unary = true;
        } else if crate::context::str_eq(w.as_str(), "(") {
            stack.push(Token::LeftParenthesis);
            unary = true;
        } else if crate::context::str_eq(w.as_str(), ")") {
            while stack.len() > 0 && !is_lparen(stack[stack.len() - 1])
                invariant
                    context.wf(),
                    rpn_wf_tokens(queue@, context.vars@.len() as int),
                    forall|i: int| 0 <= i < stack@.len() ==> stack_token_ok(#[trigger] stack@[i]),
                    close_paren_spec(stack@, queue@) == close_paren_spec(s_in, q_in),
                decreases stack@.len(),
            {
                let top = stack[stack.len() - 1];
                stack.pop();
                queue.push(top);
            }
            if stack.len() == 0 {
                proof {
                    assert(close_paren_spec(s_in, q_in) is None);
                }
                return Err(ShuntingYardError::UnclosedParenthesis);
            }
            proof {
                assert(close_paren_spec(s_in, q_in) == Some(
                    (stack@.drop_last(), queue@),
                ));
            }
            stack.pop();
            unary = false;
        } else {
            // a binary operator word, or a number or identifier
            let mut op: Option<Token> = None;
            if crate::context::str_eq(w.as_str(), "^") {
                op = Some(Token::Exp);
            } else if crate::context::str_eq(w.as_str(), "/") {
                op = Some(Token::Div);
            } else if crate::context::str_eq(w.as_str(), "*") {
                op = Some(Token::Mul);
            } else if crate::context::str_eq(w.as_str(), "+") {
                op = Some(Token::Plus);
            } else if crate::context::str_eq(w.as_str(), "-") {
                op = Some(Token::Minus);
            }
            proof {
                assert(op == op_of_word_spec(w@));
            }
            match op {
                Some(o1) => {
                    if unary && is_minus(o1) {
                        // a unary minus: multiply what follows by -1
                        queue.push(Token::Num(F64_NEG_ONE));
                        stack.push(Token::Mul);
                        unary = true;
                    } else {
                        while stack.len() > 0 && prec_check_tokens(o1, stack[stack.len() - 1])
                            invariant
                                context.wf(),
                                rpn_wf_tokens(queue@, context.vars@.len() as int),
                                forall|i: int|
                                    0 <= i < stack@.len() ==> stack_token_ok(
                                        #[trigger] stack@[i],
                                    ),
                                stack_token_ok(o1),
                                !(o1 is LeftParenthesis) && !(o1 is Func),
                                pop_ops_spec(o1, stack@, queue@) == pop_ops_spec(o1, s_in, q_in),
                            decreases stack@.len(),
                        {
                            let o2 = stack[stack.len() - 1];
                            stack.pop();
                            queue.push(o2);
                        }
                        proof {
                            assert(pop_ops_spec(o1, s_in, q_in) == (stack@, queue@));
                        }
                        stack.push(o1);
                        unary = true;
                    }
                },
                None => {
                    match parse_number(w.as_str()) {
                        Some(bits) => {
                            queue.push(Token::Num(bits));
                            unary = false;
                        },
                        None => {
                            match context.get(w.as_str()) {
                                Some(Token::Num(v)) => {
                                    queue.push(Token::Num(v));
                                    unary = false;
                                },
                                Some(Token::Var(vi)) => {
                                    proof {
                                        let ki = key_index_spec(context.entries@, w@);
                                        assert(context.entries@[ki].1 == Token::Var(vi));
                                        assert(token_in_arena(
                                            context.entries@[ki].1,
                                            context.vars@.len() as int,
                                        ));
                                    }
                                    queue.push(Token::Var(vi));
                                    unary = false;
                                },
                                Some(Token::Func(k)) => {
                                    stack.push(Token::Func(k));
                                    unary = true;
                                },
                                Some(_) => {
                                    // a well-formed context stores no
                                    // structural token under a name
                                    proof {
                                        let ki = key_index_spec(context.entries@, w@);
                                        assert(crate::context::storable_spec(
                                            context.entries@[ki].1,
                                        ));
                                        assert(false);
                                    }
                                    return Err(ShuntingYardError::ContextMutation);
                                },
                                None => {
                                    return Err(ShuntingYardError::UnknownToken);
                                },
                            }
                        },
                    }
                },
            }
        }
        proof {
            assert(shunt_spec(words_v, idx as int, s_in, q_in, u_in, *context) == shunt_spec(
                words_v,
                idx + 1,
                stack@,
                queue@,
                unary,
                *context,
            ));
        }
        idx = idx + 1;
    }
    // drain the operator stack into the queue
    let ghost s_end = stack@;
    let ghost q_end = queue@;
    while stack.len() > 0 && !is_lparen(stack[stack.len() - 1])
        invariant
            context.wf(),
            rpn_wf_tokens(queue@, context.vars@.len() as int),
            forall|i: int| 0 <= i < stack@.len() ==> stack_token_ok(#[trigger] stack@[i]),
            drain_spec(stack@, queue@) == drain_spec(s_end, q_end),
        decreases stack@.len(),
    {
        let top = stack[stack.len() - 1];
        stack.pop();
        queue.push(top);
    }
    if stack.len() > 0 {
        proof {
            assert(drain_spec(s_end, q_end) == Err::<Seq<Token>, ShuntingYardError>(
                ShuntingYardError::UnclosedParenthesis,
            ));
        }
        return Err(ShuntingYardError::UnclosedParenthesis);
    }
    proof {
        assert(drain_spec(s_end, q_end) == Ok::<Seq<Token>, ShuntingYardError>(queue@));
    }
    Ok(queue)
}

/// True for the open-parenthesis token.
fn is_lparen(t: Token) -> (r: bool)
    ensures
        r == (t is LeftParenthesis),
{
    matches!(t, Token::LeftParenthesis)
}

/// True for the minus token.
fn is_minus(t: Token) -> (r: bool)
    ensures
        r == (t is Minus),
{
    matches!(t, Token::Minus)
}

} // verus!
