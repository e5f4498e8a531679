//! The tokenizer of the textual front end.
//!
//! Source text is a run of tokens: an opening or a closing parenthesis, one
//! white-space character, or an identifier, which is a letter followed by as
//! many letters and digits as are there.
use vstd::prelude::*;
use vstd::std_specs::cmp::PartialEqSpecImpl;
use vstd::std_specs::convert::FromSpecImpl;
use vstd::std_specs::iter::IteratorSpec;
use vstd::string::{axiom_spec_iter, next_postcondition, StrSliceExecFns, StringExecFns};

verus! {

/// A token.
#[derive(Copy, Clone, Eq, Hash, Ord, PartialOrd, Debug)]
pub enum Token<'a> {
    LParen,
    RParen,
    Whitespace,
    Identifier(&'a str),
}

/// What a token says, whatever text it borrows from: an identifier is the
/// characters of its name.
pub enum Lexeme {
    LParen,
    RParen,
    Whitespace,
    Identifier(Seq<char>),
}

impl<'a> View for Token<'a> {
    type V = Lexeme;

    open spec fn view(&self) -> Lexeme {
        match *self {
            Token::LParen => Lexeme::LParen,
            Token::RParen => Lexeme::RParen,
            Token::Whitespace => Lexeme::Whitespace,
            Token::Identifier(name) => Lexeme::Identifier(name@),
        }
    }
}

/// What `char::is_whitespace` returns: whether Unicode classes the character
/// as white space.
pub uninterp spec fn whitespace(c: char) -> bool;

/// What `char::is_alphabetic` returns: whether Unicode classes the character
/// as alphabetic.
pub uninterp spec fn alphabetic(c: char) -> bool;

/// What `char::is_alphanumeric` returns: whether the character is alphabetic
/// or numeric.
pub uninterp spec fn alphanumeric(c: char) -> bool;

/// `char::is_whitespace`: the answer depends on the character alone, so it
/// has a name.
pub assume_specification[ char::is_whitespace ](c: char) -> (b: bool)
    ensures
        b == whitespace(c),
;

/// `char::is_alphabetic`: the answer depends on the character alone, so it
/// has a name.
pub assume_specification[ char::is_alphabetic ](c: char) -> (b: bool)
    ensures
        b == alphabetic(c),
;

/// `char::is_alphanumeric`: the answer depends on the character alone, so it
/// has a name.
pub assume_specification[ char::is_alphanumeric ](c: char) -> (b: bool)
    ensures
        b == alphanumeric(c),
;

/// `==` on `str`: two string slices are equal when they hold the same
/// characters in the same order.
pub assume_specification[ <str as PartialEq>::eq ](a: &str, b: &str) -> (r: bool)
    ensures
        r == (a@ == b@),
;

/// Tokens are equal when they say the same, wherever their text lives.
impl<'a, 'b> PartialEq<Token<'b>> for Token<'a> {
    fn eq(&self, rhs: &Token<'b>) -> (r: bool) {
        match (*self, *rhs) {
            (Token::LParen, Token::LParen) => true,
            (Token::RParen, Token::RParen) => true,
            (Token::Whitespace, Token::Whitespace) => true,
            (Token::Identifier(x), Token::Identifier(y)) => *x == *y,
            _ => false,
        }
    }
}

impl<'a, 'b> PartialEqSpecImpl<Token<'b>> for Token<'a> {
    open spec fn obeys_eq_spec() -> bool {
        true
    }

    open spec fn eq_spec(&self, other: &Token<'b>) -> bool {
        self@ == other@
    }
}

/// How a token is written out: the parentheses as themselves, white space as
/// `<space>`, an identifier as its name.
pub open spec fn text(lexeme: Lexeme) -> Seq<char> {
    match lexeme {
        Lexeme::LParen => "("@,
        Lexeme::RParen => ")"@,
        Lexeme::Whitespace => "<space>"@,
        Lexeme::Identifier(name) => name,
    }
}

impl<'a> From<Token<'a>> for String {
    /// Writes a token out.
    fn from(tok: Token<'a>) -> (written: String)
        ensures
            written@ == text(tok@),
    {
        String::from_str(
            match tok {
                Token::LParen => "(",
                Token::RParen => ")",
                Token::Whitespace => "<space>",
                Token::Identifier(name) => name,
            },
        )
    }
}

/// A `String` cannot be built in a specification, so what the conversion
/// gives is said by the `ensures` of `from`, over the characters of the
/// result, and not by `from_spec`.
impl<'a> FromSpecImpl<Token<'a>> for String {
    open spec fn obeys_from_spec() -> bool {
        false
    }

    open spec fn from_spec(tok: Token<'a>) -> String {
        arbitrary()
    }
}

/// The identifier named `s`.
pub fn mk_identifier<'a>(s: &'a str) -> (tok: Token<'a>)
    ensures
        tok == Token::Identifier(s),
{
    Token::Identifier(s)
}

/// Where the run of letters and digits that holds position `from` ends: the
/// first position at or after `from` that holds neither, or the end of `s`.
pub open spec fn run_end(s: Seq<char>, from: int) -> int
    decreases s.len() - from,
{
    if 0 <= from < s.len() && alphanumeric(s[from]) {
        run_end(s, from + 1)
    } else {
        from
    }
}

/// Where the token that starts at `from` ends, or `from` itself if no token
/// starts there.
pub open spec fn token_end(s: Seq<char>, from: int) -> int {
    if !(0 <= from < s.len()) {
        from
    } else if s[from] == '(' || s[from] == ')' || whitespace(s[from]) {
        from + 1
    } else if alphabetic(s[from]) {
        run_end(s, from + 1)
    } else {
        from
    }
}

/// The token that starts at `from`, where one does.
pub open spec fn token_at(s: Seq<char>, from: int) -> Lexeme
    recommends
        token_end(s, from) > from,
{
    if s[from] == '(' {
        Lexeme::LParen
    } else if s[from] == ')' {
        Lexeme::RParen
    } else if whitespace(s[from]) {
        Lexeme::Whitespace
    } else {
        Lexeme::Identifier(s.subrange(from, token_end(s, from)))
    }
}

/// The tokens of `s` from position `from` on, up to the end of `s` or to the
/// first character that starts no token.
pub open spec fn tokens_from(s: Seq<char>, from: int) -> Seq<Lexeme>
    decreases s.len() - from,
    via tokens_from_decreases
{
    if token_end(s, from) > from {
        seq![token_at(s, from)] + tokens_from(s, token_end(s, from))
    } else {
        Seq::empty()
    }
}

#[via_fn]
proof fn tokens_from_decreases(s: Seq<char>, from: int) {
    if 0 <= from < s.len() {
        lemma_run_end_bounds(s, from + 1);
    }
}

/// The tokens of `s`.
pub open spec fn tokens(s: Seq<char>) -> Seq<Lexeme> {
    tokens_from(s, 0)
}

/// What each of a row of tokens says.
pub open spec fn lexemes<'a>(toks: Seq<Token<'a>>) -> Seq<Lexeme> {
    Seq::new(toks.len(), |i: int| toks[i]@)
}

/// A run ends at or after the place it is looked for from, and not past the
/// end of the text.
pub proof fn lemma_run_end_bounds(s: Seq<char>, from: int)
    requires
        0 <= from <= s.len(),
    ensures
        from <= run_end(s, from) <= s.len(),
    decreases s.len() - from,
{
    if from < s.len() && alphanumeric(s[from]) {
        lemma_run_end_bounds(s, from + 1);
    }
}

/// The characters of `input`, in order.
fn chars_of(input: &str) -> (chars: Vec<char>)
    ensures
        chars@ == input@,
{
    broadcast use axiom_spec_iter, next_postcondition;

    let mut rest = input.chars();
    let mut chars: Vec<char> = Vec::new();
    loop
        invariant
            chars@ + rest.remaining() == input@,
            rest.obeys_prophetic_iter_laws(),
            rest.decrease() is Some,
        decreases rest.decrease()->0,
    {
        match rest.next() {
            Some(c) => {
                chars.push(c);
                assert(chars@ + rest.remaining() =~= input@);
            },
            None => {
                assert(chars@ =~= input@);
                return chars;
            },
        }
    }
}

/// Finds where the run of letters and digits from `from` on ends.
fn scan_run(chars: &Vec<char>, from: usize) -> (end: usize)
    requires
        from <= chars@.len(),
    ensures
        end == run_end(chars@, from as int),
        from <= end <= chars@.len(),
{
    let mut end = from;
    while end < chars.len() && chars[end].is_alphanumeric()
        invariant
            from <= end <= chars@.len(),
            run_end(chars@, from as int) == run_end(chars@, end as int),
        decreases chars@.len() - end,
    {
        end = end + 1;
    }
    end
}

/// Splits `input` into its tokens.
///
/// The input is taken as complete: an identifier that runs to its end is a
/// token. Scanning stops at the first character that starts no token; what
/// follows it is left alone.
pub fn lexer<'a>(input: &'a str) -> (toks: Vec<Token<'a>>)
    ensures
        lexemes(toks@) == tokens(input@),
{
    let chars = chars_of(input);
    let mut toks: Vec<Token<'a>> = Vec::new();
    let mut at: usize = 0;
    loop
        invariant
            chars@ == input@,
            at <= chars@.len(),
            lexemes(toks@) + tokens_from(chars@, at as int) == tokens(chars@),
        ensures
            token_end(chars@, at as int) == at,
        decreases chars@.len() - at,
    {
        if at >= chars.len() {
            break ;
        }
        let c = chars[at];
        let ghost before = lexemes(toks@);
        let next: usize;
        if c == '(' {
            toks.push(Token::LParen);
            next = at + 1;
        } else if c == ')' {
            toks.push(Token::RParen);
            next = at + 1;
        } else if c.is_whitespace() {
            toks.push(Token::Whitespace);
            next = at + 1;
        } else if c.is_alphabetic() {
            next = scan_run(&chars, at + 1);
            toks.push(mk_identifier(input.substring_char(at, next)));
        } else {
            break ;
        }
        proof {
            assert(next as int == token_end(chars@, at as int));
            assert(lexemes(toks@) =~= before + seq![token_at(chars@, at as int)]);
            assert(lexemes(toks@) + tokens_from(chars@, next as int) =~= before + tokens_from(
                chars@,
                at as int,
            ));
        }
        at = next;
    }
    proof {
        assert(tokens_from(chars@, at as int) =~= Seq::<Lexeme>::empty());
        assert(lexemes(toks@) =~= lexemes(toks@) + Seq::<Lexeme>::empty());
    }
    toks
}

} // verus!
