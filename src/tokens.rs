//! A flat model of a token stream: identifiers, punctuation, literals, and
//! the opening and closing delimiters of groups, with its source text.
use vstd::prelude::*;
use crate::outside::push_char;

verus! {

/// The delimiter of a group of tokens.
#[derive(Clone, Copy, Debug, PartialEq, Eq, Structural)]
pub enum Delim {
    Paren,
    Bracket,
    Brace,
    Invisible,
}

/// One token; a group appears as its opening delimiter, its contents and its
/// closing delimiter.
#[derive(Debug)]
pub enum Token {
    Ident(String),
    /// A punctuation character, and whether it is joined to the next one.
    Punct(char, bool),
    Literal(String),
    Open(Delim),
    Close(Delim),
}

/// What a token is, with its text as characters.
pub enum TokenV {
    Ident(Seq<char>),
    Punct(char, bool),
    Literal(Seq<char>),
    Open(Delim),
    Close(Delim),
}

impl View for Token {
    type V = TokenV;

    open spec fn view(&self) -> TokenV {
        match self {
            Token::Ident(s) => TokenV::Ident(s@),
            Token::Punct(c, j) => TokenV::Punct(*c, *j),
            Token::Literal(s) => TokenV::Literal(s@),
            Token::Open(d) => TokenV::Open(*d),
            Token::Close(d) => TokenV::Close(*d),
        }
    }
}

impl Clone for Token {
    fn clone(&self) -> (r: Self)
        ensures
            r == *self,
    {
        match self {
            Token::Ident(s) => Token::Ident(s.clone()),
            Token::Punct(c, j) => Token::Punct(*c, *j),
            Token::Literal(s) => Token::Literal(s.clone()),
            Token::Open(d) => Token::Open(*d),
            Token::Close(d) => Token::Close(*d),
        }
    }
}

/// The tokens of a sequence, each as its view.
pub open spec fn view_tokens(v: Seq<Token>) -> Seq<TokenV> {
    v.map_values(|t: Token| t@)
}

/// Each token sequence of a list, as views.
pub open spec fn view_token_lists(v: Seq<Vec<Token>>) -> Seq<Seq<TokenV>> {
    v.map_values(|t: Vec<Token>| view_tokens(t@))
}

/// An identifier token with exactly the text `w`.
pub open spec fn is_ident_text(t: TokenV, w: Seq<char>) -> bool {
    t == TokenV::Ident(w)
}

/// A punctuation character joined to the next one.
pub open spec fn is_joint(t: TokenV) -> bool {
    t matches TokenV::Punct(_, true)
}

pub open spec fn open_char(d: Delim) -> Seq<char> {
    match d {
        Delim::Paren => seq!['('],
        Delim::Bracket => seq!['['],
        Delim::Brace => seq!['{'],
        Delim::Invisible => Seq::empty(),
    }
}

pub open spec fn close_char(d: Delim) -> Seq<char> {
    match d {
        Delim::Paren => seq![')'],
        Delim::Bracket => seq![']'],
        Delim::Brace => seq!['}'],
        Delim::Invisible => Seq::empty(),
    }
}

/// The source text of one token.
pub open spec fn token_text(t: TokenV) -> Seq<char> {
    match t {
        TokenV::Ident(s) => s,
        TokenV::Punct(c, _) => seq![c],
        TokenV::Literal(s) => s,
        TokenV::Open(d) => open_char(d),
        TokenV::Close(d) => close_char(d),
    }
}

/// The space written before a token that follows `before`: none at the start
/// and none after a joined punctuation character.
pub open spec fn gap_after(before: Seq<TokenV>) -> Seq<char> {
    if before.len() == 0 || is_joint(before.last()) {
        Seq::empty()
    } else {
        seq![' ']
    }
}

/// The source text of a token sequence: tokens separated by one space, but
/// for joined punctuation.
pub open spec fn tokens_text(s: Seq<TokenV>) -> Seq<char>
    decreases s.len(),
{
    if s.len() == 0 {
        Seq::empty()
    } else {
        let p = s.drop_last();
        tokens_text(p) + gap_after(p) + token_text(s.last())
    }
}

/// The nesting depth of groups after `t`, starting from depth `d`.
pub open spec fn step_depth(d: nat, t: TokenV) -> nat {
    match t {
        TokenV::Open(_) => d + 1,
        TokenV::Close(_) => if d > 0 {
            (d - 1) as nat
        } else {
            0
        },
        _ => d,
    }
}

/// The nesting depth of angle brackets after token `i` of `s`, at group depth
/// `d` (angle brackets only count outside groups; `->` closes none).
pub open spec fn step_angle(a: nat, d: nat, s: Seq<TokenV>, i: int) -> nat {
    if d != 0 {
        a
    } else if s[i] matches TokenV::Punct('<', _) {
        a + 1
    } else if (s[i] matches TokenV::Punct('>', _)) && a > 0 && !(i > 0 && s[i - 1]
        == TokenV::Punct('-', true)) {
        (a - 1) as nat
    } else {
        a
    }
}

/// Splits `s` from token `i` on, at the commas that stand outside every group
/// (and, where `angles` holds, outside every angle bracket), given the state
/// reached before `i`: the depths, the part begun and the parts done.
pub open spec fn split_from(
    s: Seq<TokenV>,
    i: int,
    d: nat,
    a: nat,
    angles: bool,
    cur: Seq<TokenV>,
    done: Seq<Seq<TokenV>>,
) -> Seq<Seq<TokenV>>
    decreases s.len() - i,
{
    if i < 0 || i >= s.len() {
        done.push(cur)
    } else if d == 0 && a == 0 && (s[i] matches TokenV::Punct(',', _)) {
        split_from(s, i + 1, d, a, angles, Seq::empty(), done.push(cur))
    } else {
        let a2 = if angles {
            step_angle(a, d, s, i)
        } else {
            0
        };
        split_from(s, i + 1, step_depth(d, s[i]), a2, angles, cur.push(s[i]), done)
    }
}

/// The parts of `s` between its top-level commas; one part when there is none.
pub open spec fn split_commas(s: Seq<TokenV>, angles: bool) -> Seq<Seq<TokenV>> {
    split_from(s, 0, 0, 0, angles, Seq::empty(), Seq::empty())
}

/// A copy of a token sequence.
pub fn copy_tokens(v: &[Token]) -> (r: Vec<Token>)
    ensures
        r@ == v@,
{
    let mut r: Vec<Token> = Vec::new();
    let mut i: usize = 0;
    while i < v.len()
        invariant
            i <= v@.len(),
            r@ == v@.subrange(0, i as int),
        decreases v@.len() - i,
    {
        r.push(v[i].clone());
        i += 1;
        assert(r@ =~= v@.subrange(0, i as int));
    }
    assert(r@ =~= v@);
    r
}

/// The tokens of `v` from `lo` up to `hi`.
pub fn token_range(v: &Vec<Token>, lo: usize, hi: usize) -> (r: Vec<Token>)
    requires
        lo <= hi <= v@.len(),
    ensures
        r@ == v@.subrange(lo as int, hi as int),
{
    let mut r: Vec<Token> = Vec::new();
    let mut i: usize = lo;
    while i < hi
        invariant
            lo <= i <= hi <= v@.len(),
            r@ == v@.subrange(lo as int, i as int),
        decreases hi - i,
    {
        r.push(v[i].clone());
        i += 1;
        assert(r@ =~= v@.subrange(lo as int, i as int));
    }
    r
}

/// Whether two tokens are the same token.
pub fn token_eq(a: &Token, b: &Token) -> (r: bool)
    ensures
        r == (a@ == b@),
{
    match (a, b) {
        (Token::Ident(x), Token::Ident(y)) => *x == *y,
        (Token::Punct(c, j), Token::Punct(e, k)) => *c == *e && *j == *k,
        (Token::Literal(x), Token::Literal(y)) => *x == *y,
        (Token::Open(d), Token::Open(e)) => *d == *e,
        (Token::Close(d), Token::Close(e)) => *d == *e,
        _ => false,
    }
}

/// Whether two token sequences are the same.
pub fn tokens_eq(a: &Vec<Token>, b: &Vec<Token>) -> (r: bool)
    ensures
        r == (view_tokens(a@) == view_tokens(b@)),
{
    if a.len() != b.len() {
        assert(view_tokens(a@).len() != view_tokens(b@).len());
        return false;
    }
    let mut i: usize = 0;
    while i < a.len()
        invariant
            a@.len() == b@.len(),
            i <= a@.len(),
            forall|k: int| 0 <= k < i ==> a@[k]@ == b@[k]@,
        decreases a@.len() - i,
    {
        if !token_eq(&a[i], &b[i]) {
            assert(view_tokens(a@)[i as int] != view_tokens(b@)[i as int]);
            return false;
        }
        i += 1;
    }
    assert(view_tokens(a@) =~= view_tokens(b@));
    true
}

/// Whether `t` is an identifier with the text `w`.
pub fn ident_is(t: &Token, w: &str) -> (r: bool)
    ensures
        r == is_ident_text(t@, w@),
{
    match t {
        Token::Ident(s) => *s == String::from_str(w),
        _ => false,
    }
}

/// Appends the text of one token.
pub fn push_token(out: &mut String, t: &Token)
    ensures
        final(out)@ == old(out)@ + token_text(t@),
{
    match t {
        Token::Ident(s) => out.append(s.as_str()),
        Token::Literal(s) => out.append(s.as_str()),
        Token::Punct(c, _) => push_char(out, *c),
        Token::Open(d) => match d {
            Delim::Paren => push_char(out, '('),
            Delim::Bracket => push_char(out, '['),
            Delim::Brace => push_char(out, '{'),
            Delim::Invisible => {
                assert(old(out)@ + Seq::<char>::empty() =~= old(out)@);
            },
        },
        Token::Close(d) => match d {
            Delim::Paren => push_char(out, ')'),
            Delim::Bracket => push_char(out, ']'),
            Delim::Brace => push_char(out, '}'),
            Delim::Invisible => {
                assert(old(out)@ + Seq::<char>::empty() =~= old(out)@);
            },
        },
    }
    assert(final(out)@ =~= old(out)@ + token_text(t@));
}

/// Appends the source text of a token sequence.
pub fn push_tokens(out: &mut String, toks: &[Token])
    ensures
        final(out)@ == old(out)@ + tokens_text(view_tokens(toks@)),
{
    let ghost vt = view_tokens(toks@);
    let mut i: usize = 0;
    assert(vt.take(0) =~= Seq::<TokenV>::empty());
    assert(out@ =~= old(out)@ + tokens_text(vt.take(0)));
    while i < toks.len()
        invariant
            i <= toks@.len(),
            vt == view_tokens(toks@),
            out@ == old(out)@ + tokens_text(vt.take(i as int)),
        decreases toks@.len() - i,
    {
        let ghost before = out@;
        let ghost p = vt.take(i as int);
        if i > 0 && !matches!(toks[i - 1], Token::Punct(_, true)) {
            push_char(out, ' ');
        }
        assert(out@ =~= before + gap_after(p));
        push_token(out, &toks[i]);
        assert(vt.take(i + 1).drop_last() =~= p);
        i += 1;
        assert(out@ =~= old(out)@ + tokens_text(vt.take(i as int)));
    }
    assert(vt.take(toks@.len() as int) =~= vt);
}

/// The source text of a token sequence.
pub fn tokens_string(toks: &[Token]) -> (r: String)
    ensures
        r@ == tokens_text(view_tokens(toks@)),
{
    let mut r = String::new();
    push_tokens(&mut r, toks);
    assert(r@ =~= tokens_text(view_tokens(toks@)));
    r
}

/// Splits a token sequence at its top-level commas (see `split_commas`).
pub fn split_at_commas(toks: &Vec<Token>, angles: bool) -> (r: Vec<Vec<Token>>)
    ensures
        view_token_lists(r@) == split_commas(view_tokens(toks@), angles),
{
    let ghost s = view_tokens(toks@);
    let mut done: Vec<Vec<Token>> = Vec::new();
    let mut cur: Vec<Token> = Vec::new();
    let mut d: usize = 0;
    let mut a: usize = 0;
    let mut i: usize = 0;
    assert(view_tokens(cur@) =~= Seq::<TokenV>::empty());
    assert(view_token_lists(done@) =~= Seq::<Seq<TokenV>>::empty());
    while i < toks.len()
        invariant
            i <= toks@.len(),
            d <= i,
            a <= i,
            s == view_tokens(toks@),
            split_commas(s, angles) == split_from(
                s,
                i as int,
                d as nat,
                a as nat,
                angles,
                view_tokens(cur@),
                view_token_lists(done@),
            ),
        decreases toks@.len() - i,
    {
        let is_comma = matches!(toks[i], Token::Punct(',', _));
        if d == 0 && a == 0 && is_comma {
            let ghost old_done = view_token_lists(done@);
            let ghost old_cur = view_tokens(cur@);
            done.push(cur);
            cur = Vec::new();
            assert(view_token_lists(done@) =~= old_done.push(old_cur));
            assert(view_tokens(cur@) =~= Seq::<TokenV>::empty());
        } else {
            let ghost old_cur = view_tokens(cur@);
            if angles {
                if d == 0 {
                    if matches!(toks[i], Token::Punct('<', _)) {
                        a = a + 1;
                    } else if matches!(toks[i], Token::Punct('>', _)) && a > 0 && !(i > 0
                        && matches!(toks[i - 1], Token::Punct('-', true))) {
                        a = a - 1;
                    }
                }
            } else {
                a = 0;
            }
            match toks[i] {
                Token::Open(_) => {
                    d = d + 1;
                },
                Token::Close(_) => {
                    if d > 0 {
                        d = d - 1;
                    }
                },
                _ => {},
            }
            cur.push(toks[i].clone());
            assert(view_tokens(cur@) =~= old_cur.push(s[i as int]));
        }
        i += 1;
    }
    let ghost old_done = view_token_lists(done@);
    let ghost old_cur = view_tokens(cur@);
    done.push(cur);
    assert(view_token_lists(done@) =~= old_done.push(old_cur));
    done
}

} // verus!
