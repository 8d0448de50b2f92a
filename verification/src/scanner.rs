use vstd::prelude::*;

use crate::error::{ScanErrV, ScanError};
use crate::literal::{LitV, Literal};
use crate::token::{Location, Token, TokenV, Type};

verus! {

/// Ghost model of the scanner: the source characters, what was produced
/// so far, and the cursor — where the current token started, where the
/// scan stands, which line it is on, and where that line began.
pub ghost struct ScanV {
    pub source: Seq<char>,
    pub tokens: Seq<TokenV>,
    pub errors: Seq<ScanErrV>,
    pub start: int,
    pub current: int,
    pub line: int,
    pub column_offset: int,
}

/// The cursor invariants the scanner keeps: the scan never stands past
/// the end of the source, the line count never outgrows the characters
/// consumed, and a line begins at or before the cursor.
pub open spec fn sp_cursor_ok(st: ScanV) -> bool {
    &&& 0 <= st.line <= st.current
    &&& st.current <= st.source.len()
    &&& 0 <= st.column_offset <= st.current
    &&& 0 <= st.start <= st.current
}

/// Whether a character is a decimal digit.
pub open spec fn sp_is_digit(c: char) -> bool {
    '0' <= c && c <= '9'
}

/// Whether a character may start an identifier: identifiers are made of
/// ASCII letters, digits and underscores.
pub open spec fn sp_is_alpha(c: char) -> bool {
    ('a' <= c && c <= 'z') || ('A' <= c && c <= 'Z') || c == '_'
}

/// Whether a character may continue an identifier.
pub open spec fn sp_is_alnum(c: char) -> bool {
    sp_is_alpha(c) || sp_is_digit(c)
}

/// The numeric value of a digit character.
pub open spec fn sp_digit_val(c: char) -> int {
    c as int - '0' as int
}

/// One more digit appended to a number being read; `None` once the value
/// has outgrown a 64-bit number.
pub open spec fn sp_acc_digit(acc: Option<i64>, d: int) -> Option<i64> {
    match acc {
        Option::Some(v) => if v > (i64::MAX - d) / 10 {
            Option::None
        } else {
            Option::Some((10 * v + d) as i64)
        },
        Option::None => Option::None,
    }
}

/// The column a token starting at `start` stands in.
pub open spec fn sp_column(st: ScanV) -> usize {
    if st.start >= st.column_offset {
        (st.start - st.column_offset) as usize
    } else {
        0
    }
}

/// A token appended at the cursor's position.
pub open spec fn sp_add_token(st: ScanV, kind: Type, lexeme: Seq<char>, literal: Option<LitV>) -> ScanV {
    ScanV {
        tokens: st.tokens.push(
            TokenV {
                kind,
                lexeme,
                literal,
                location: Location { line: st.line as usize, column: sp_column(st) },
            },
        ),
        ..st
    }
}

/// An error recorded at the cursor's position.
pub open spec fn sp_add_error(st: ScanV, message: Seq<char>) -> ScanV {
    ScanV {
        errors: st.errors.push(
            ScanErrV {
                location: Location { line: st.line as usize, column: sp_column(st) },
                message,
            },
        ),
        ..st
    }
}

/// A one-character token: the character is consumed and becomes the
/// lexeme.
pub open spec fn sp_add1(st: ScanV, kind: Type) -> ScanV {
    let c = st.source[st.current];
    sp_add_token(ScanV { current: st.current + 1, ..st }, kind, seq![c], Option::None)
}

/// A two-character token: both characters are consumed and become the
/// lexeme.
pub open spec fn sp_add2(st: ScanV, kind: Type) -> ScanV {
    let c1 = st.source[st.current];
    let c2 = st.source[st.current + 1];
    sp_add_token(ScanV { current: st.current + 2, ..st }, kind, seq![c1, c2], Option::None)
}

/// Whether the character after the current one is `=`.
pub open spec fn sp_eq_follows(st: ScanV) -> bool {
    st.current + 1 < st.source.len() && st.source[st.current + 1] == '='
}

/// A one-or-two-character token: with `=` following it is the two-character
/// kind, else the one-character kind.
pub open spec fn sp_add_maybe_eq(st: ScanV, single: Type, double: Type) -> ScanV {
    if sp_eq_follows(st) {
        sp_add2(st, double)
    } else {
        sp_add1(st, single)
    }
}

/// A line comment: everything up to the end of the line is passed over.
pub open spec fn sp_skip_comment(st: ScanV) -> ScanV
    decreases st.source.len() - st.current,
{
    if st.current < st.source.len() && st.source[st.current] != '\n' {
        sp_skip_comment(ScanV { current: st.current + 1, ..st })
    } else {
        st
    }
}

/// The characters of a string literal, up to its closing quote. An
/// unterminated string is an error at the opening quote; a newline inside
/// a string is part of it and advances the line count.
pub open spec fn sp_string_body(st: ScanV, acc: Seq<char>, loc: Location) -> ScanV
    decreases st.source.len() - st.current,
{
    if st.current >= st.source.len() {
        ScanV {
            errors: st.errors.push(ScanErrV { location: loc, message: "Unterminated string"@ }),
            ..st
        }
    } else if st.source[st.current] == '"' {
        ScanV {
            tokens: st.tokens.push(
                TokenV {
                    kind: Type::Str,
                    lexeme: acc,
                    literal: Option::Some(LitV::Str(acc)),
                    location: loc,
                },
            ),
            current: st.current + 1,
            ..st
        }
    } else if st.source[st.current] == '\n' {
        sp_string_body(
            ScanV {
                current: st.current + 1,
                line: st.line + 1,
                column_offset: st.current + 1,
                ..st
            },
            acc.push('\n'),
            loc,
        )
    } else {
        sp_string_body(
            ScanV { current: st.current + 1, ..st },
            acc.push(st.source[st.current]),
            loc,
        )
    }
}

/// A string literal: the opening quote is consumed, then the body.
pub open spec fn sp_string(st: ScanV) -> ScanV {
    sp_string_body(
        ScanV { current: st.current + 1, ..st },
        Seq::empty(),
        Location { line: st.line as usize, column: sp_column(st) },
    )
}

/// The digits of a number: lexeme and value accumulate together, the
/// value dropping out once it no longer fits a 64-bit number.
pub open spec fn sp_number_body(st: ScanV, lex: Seq<char>, acc: Option<i64>) -> (
    ScanV,
    Seq<char>,
    Option<i64>,
)
    decreases st.source.len() - st.current,
{
    if st.current < st.source.len() && sp_is_digit(st.source[st.current]) {
        let c = st.source[st.current];
        sp_number_body(
            ScanV { current: st.current + 1, ..st },
            lex.push(c),
            sp_acc_digit(acc, sp_digit_val(c)),
        )
    } else {
        (st, lex, acc)
    }
}

/// Digits passed over after a malformed number.
pub open spec fn sp_skip_digits(st: ScanV) -> ScanV
    decreases st.source.len() - st.current,
{
    if st.current < st.source.len() && sp_is_digit(st.source[st.current]) {
        sp_skip_digits(ScanV { current: st.current + 1, ..st })
    } else {
        st
    }
}

/// A number literal: a run of digits, read as a 64-bit number. The
/// language's numbers are integers, so a fraction is an error, as is a
/// literal too large for the type; both errors pass the rest of the
/// literal over.
pub open spec fn sp_number(st: ScanV) -> ScanV {
    let (st1, lex, acc) = sp_number_body(st, Seq::empty(), Option::Some(0i64));
    if st1.current + 1 < st1.source.len() && st1.source[st1.current] == '.' && sp_is_digit(
        st1.source[st1.current + 1],
    ) {
        sp_skip_digits(
            ScanV {
                current: st1.current + 1,
                ..sp_add_error(st1, "Fractional number literals are not supported"@)
            },
        )
    } else {
        match acc {
            Option::Some(v) => sp_add_token(st1, Type::Number, lex, Option::Some(LitV::Num(v))),
            Option::None => sp_add_error(st1, "Number too large"@),
        }
    }
}

/// The keyword a name spells, or `Identifier` when it spells none.
pub open spec fn sp_keyword(s: Seq<char>) -> Type {
    if s == "and"@ {
        Type::And
    } else if s == "class"@ {
        Type::Class
    } else if s == "else"@ {
        Type::Else
    } else if s == "false"@ {
        Type::False
    } else if s == "for"@ {
        Type::For
    } else if s == "fun"@ {
        Type::Fun
    } else if s == "if"@ {
        Type::If
    } else if s == "null"@ {
        Type::Null
    } else if s == "or"@ {
        Type::Or
    } else if s == "print"@ {
        Type::Print
    } else if s == "return"@ {
        Type::Return
    } else if s == "break"@ {
        Type::Break
    } else if s == "super"@ {
        Type::Super
    } else if s == "this"@ {
        Type::This
    } else if s == "true"@ {
        Type::True
    } else if s == "var"@ {
        Type::Var
    } else if s == "while"@ {
        Type::While
    } else {
        Type::Identifier
    }
}

/// The characters of an identifier.
pub open spec fn sp_ident_body(st: ScanV, acc: Seq<char>) -> (ScanV, Seq<char>)
    decreases st.source.len() - st.current,
{
    if st.current < st.source.len() && sp_is_alnum(st.source[st.current]) {
        let c = st.source[st.current];
        sp_ident_body(ScanV { current: st.current + 1, ..st }, acc.push(c))
    } else {
        (st, acc)
    }
}

/// An identifier or keyword.
pub open spec fn sp_identifier(st: ScanV) -> ScanV {
    let (st1, acc) = sp_ident_body(st, Seq::empty());
    sp_add_token(st1, sp_keyword(acc), acc, Option::None)
}

/// One step of the scan: the token, comment, whitespace or error starting
/// at the cursor.
pub open spec fn sp_scan_token(st: ScanV) -> ScanV {
    let c = st.source[st.current];
    if c == '(' {
        sp_add1(st, Type::LeftParen)
    } else if c == ')' {
        sp_add1(st, Type::RightParen)
    } else if c == '{' {
        sp_add1(st, Type::LeftBrace)
    } else if c == '}' {
        sp_add1(st, Type::RightBrace)
    } else if c == ',' {
        sp_add1(st, Type::Comma)
    } else if c == '.' {
        sp_add1(st, Type::Dot)
    } else if c == '-' {
        sp_add1(st, Type::Minus)
    } else if c == '+' {
        sp_add1(st, Type::Plus)
    } else if c == ';' {
        sp_add1(st, Type::Semicolon)
    } else if c == '*' {
        sp_add1(st, Type::Star)
    } else if c == '!' {
        sp_add_maybe_eq(st, Type::Bang, Type::BangEqual)
    } else if c == '=' {
        sp_add_maybe_eq(st, Type::Equal, Type::EqualEqual)
    } else if c == '<' {
        sp_add_maybe_eq(st, Type::Less, Type::LessEqual)
    } else if c == '>' {
        sp_add_maybe_eq(st, Type::Greater, Type::GreaterEqual)
    } else if c == '/' {
        if st.current + 1 < st.source.len() && st.source[st.current + 1] == '/' {
            sp_skip_comment(st)
        } else {
            sp_add1(st, Type::Slash)
        }
    } else if c == ' ' || c == '\r' || c == '\t' {
        ScanV { current: st.current + 1, ..st }
    } else if c == '\n' {
        ScanV {
            current: st.current + 1,
            line: st.line + 1,
            column_offset: st.current + 1,
            ..st
        }
    } else if c == '"' {
        sp_string(st)
    } else if sp_is_digit(c) {
        sp_number(st)
    } else if sp_is_alpha(c) {
        sp_identifier(st)
    } else {
        sp_add_error(ScanV { current: st.current + 1, ..st }, "Unexpected character"@)
    }
}

/// The whole scan: tokens until the source is spent, then the EOF
/// sentinel. The budget bounds the number of scan steps; every step
/// consumes at least one character, so one step per source character
/// covers the whole source.
pub open spec fn sp_scan(st: ScanV, fuel: nat) -> ScanV
    decreases fuel,
{
    if st.current >= st.source.len() || fuel == 0 {
        ScanV {
            tokens: st.tokens.push(
                TokenV {
                    kind: Type::EOF,
                    lexeme: Seq::empty(),
                    literal: Option::None,
                    location: Location { line: st.line as usize, column: 0 },
                },
            ),
            ..st
        }
    } else {
        sp_scan(sp_scan_token(ScanV { start: st.current, ..st }), (fuel - 1) as nat)
    }
}

/// The scanner: source characters in, token list out, with the lexical
/// errors collected on the side. It feeds the parser, which feeds the
/// resolver and the interpreter.
pub struct Scanner {
    /// The source, as characters.
    pub source: Vec<char>,
    /// The tokens produced so far.
    pub tokens: Vec<Token>,
    /// The lexical errors found so far.
    pub errors: Vec<ScanError>,
    /// Where the token being scanned started.
    pub start: usize,
    /// Where the scan stands.
    pub current: usize,
    /// The line the scan stands on, counted from zero.
    pub line: usize,
    /// Where the current line began, for column counts.
    pub column_offset: usize,
}

impl View for Scanner {
    type V = ScanV;

    open spec fn view(&self) -> ScanV {
        ScanV {
            source: self.source@,
            tokens: self.tokens@.map_values(|t: Token| t@),
            errors: self.errors@.map_values(|e: ScanError| e@),
            start: self.start as int,
            current: self.current as int,
            line: self.line as int,
            column_offset: self.column_offset as int,
        }
    }
}

/// Whether a character is a decimal digit.
fn is_digit(c: char) -> (r: bool)
    ensures
        r == sp_is_digit(c),
{
    c >= '0' && c <= '9'
}

/// Whether a character may start an identifier.
fn is_alpha(c: char) -> (r: bool)
    ensures
        r == sp_is_alpha(c),
{
    (c >= 'a' && c <= 'z') || (c >= 'A' && c <= 'Z') || c == '_'
}

/// Whether a character may continue an identifier.
fn is_alnum(c: char) -> (r: bool)
    ensures
        r == sp_is_alnum(c),
{
    is_alpha(c) || is_digit(c)
}

/// The keyword a name spells, or `Identifier`.
fn keyword(s: &String) -> (r: Type)
    ensures
        r == sp_keyword(s@),
{
    if s.eq(&("and".to_owned())) {
        Type::And
    } else if s.eq(&("class".to_owned())) {
        Type::Class
    } else if s.eq(&("else".to_owned())) {
        Type::Else
    } else if s.eq(&("false".to_owned())) {
        Type::False
    } else if s.eq(&("for".to_owned())) {
        Type::For
    } else if s.eq(&("fun".to_owned())) {
        Type::Fun
    } else if s.eq(&("if".to_owned())) {
        Type::If
    } else if s.eq(&("null".to_owned())) {
        Type::Null
    } else if s.eq(&("or".to_owned())) {
        Type::Or
    } else if s.eq(&("print".to_owned())) {
        Type::Print
    } else if s.eq(&("return".to_owned())) {
        Type::Return
    } else if s.eq(&("break".to_owned())) {
        Type::Break
    } else if s.eq(&("super".to_owned())) {
        Type::Super
    } else if s.eq(&("this".to_owned())) {
        Type::This
    } else if s.eq(&("true".to_owned())) {
        Type::True
    } else if s.eq(&("var".to_owned())) {
        Type::Var
    } else if s.eq(&("while".to_owned())) {
        Type::While
    } else {
        Type::Identifier
    }
}

impl Scanner {
    /// Creates a scanner over the given source characters.
    pub fn new(source: Vec<char>) -> (r: Scanner)
        ensures
            r@ == (ScanV {
                source: source@,
                tokens: Seq::empty(),
                errors: Seq::empty(),
                start: 0,
                current: 0,
                line: 0,
                column_offset: 0,
            }),
    {
        let r = Scanner {
            source,
            tokens: Vec::new(),
            errors: Vec::new(),
            start: 0,
            current: 0,
            line: 0,
            column_offset: 0,
        };
        proof {
            assert(r@.tokens =~= Seq::<TokenV>::empty());
            assert(r@.errors =~= Seq::<ScanErrV>::empty());
        }
        r
    }

    /// Scans the whole source and returns the tokens, ending with the EOF
    /// sentinel; the errors found stay on the scanner.
    pub fn scan_tokens(&mut self) -> (r: Vec<Token>)
        requires
            sp_cursor_ok(old(self)@),
        ensures
            ({
                let st2 = sp_scan(old(self)@, old(self)@.source.len());
                final(self)@ == st2 && r@.map_values(|t: Token| t@) == st2.tokens
            }),
    {
        let fuel: u64 = self.source.len() as u64;
        self.scan_rest(fuel);
        clone_tokens(&self.tokens)
    }

    /// Scans steps until the source is spent or the budget is.
    fn scan_rest(&mut self, fuel: u64)
        requires
            sp_cursor_ok(old(self)@),
        ensures
            final(self)@ == sp_scan(old(self)@, fuel as nat),
        decreases fuel,
    {
        if self.current >= self.source.len() || fuel == 0 {
            let ghost t0 = self@.tokens;
            self.tokens.push(
                Token::new(
                    Type::EOF,
                    String::new(),
                    Option::None,
                    Location::new(self.line, 0),
                ),
            );
            proof {
                assert(self@.tokens =~= t0.push(self.tokens@.last()@));
            }
        } else {
            self.start = self.current;
            self.scan_token();
            self.scan_rest(fuel - 1);
        }
    }

    /// Records an error at the cursor's position.
    fn add_error(&mut self, message: String)
        ensures
            final(self)@ == sp_add_error(old(self)@, message@),
    {
        let ghost e0 = self@.errors;
        let column: usize = if self.start >= self.column_offset {
            self.start - self.column_offset
        } else {
            0
        };
        self.errors.push(ScanError { location: Location::new(self.line, column), message });
        proof {
            assert(self@.errors =~= e0.push(self.errors@.last()@));
        }
    }

    /// Appends a token at the cursor's position.
    fn add_token(&mut self, kind: Type, lexeme: String, literal: Option<Literal>)
        ensures
            final(self)@ == sp_add_token(
                old(self)@,
                kind,
                lexeme@,
                match literal {
                    Option::Some(l) => Option::Some(l@),
                    Option::None => Option::None,
                },
            ),
    {
        let ghost t0 = self@.tokens;
        let column: usize = if self.start >= self.column_offset {
            self.start - self.column_offset
        } else {
            0
        };
        self.tokens.push(Token::new(kind, lexeme, literal, Location::new(self.line, column)));
        proof {
            assert(self@.tokens =~= t0.push(self.tokens@.last()@));
        }
    }

    /// Consumes one character into a one-character token.
    fn add_single(&mut self, kind: Type)
        requires
            sp_cursor_ok(old(self)@),
            old(self)@.current < old(self)@.source.len(),
        ensures
            final(self)@ == sp_add1(old(self)@, kind),
            sp_cursor_ok(final(self)@),
    {
        let n = self.source.len();
        let c = self.source[self.current];
        self.current = self.current + 1;
        let mut lexeme = String::new();
        push_char(&mut lexeme, c);
        proof {
            assert(lexeme@ =~= seq![c]);
        }
        self.add_token(kind, lexeme, Option::None);
    }

    /// Consumes two characters into a two-character token.
    fn add_double(&mut self, kind: Type)
        requires
            sp_cursor_ok(old(self)@),
            old(self)@.current + 1 < old(self)@.source.len(),
        ensures
            final(self)@ == sp_add2(old(self)@, kind),
            sp_cursor_ok(final(self)@),
    {
        let n = self.source.len();
        let c1 = self.source[self.current];
        let c2 = self.source[self.current + 1];
        self.current = self.current + 2;
        let mut lexeme = String::new();
        push_char(&mut lexeme, c1);
        push_char(&mut lexeme, c2);
        proof {
            assert(lexeme@ =~= seq![c1, c2]);
        }
        self.add_token(kind, lexeme, Option::None);
    }

    /// Consumes one or two characters, by whether `=` follows.
    fn add_maybe_eq(&mut self, single: Type, double: Type)
        requires
            sp_cursor_ok(old(self)@),
            old(self)@.current < old(self)@.source.len(),
        ensures
            final(self)@ == sp_add_maybe_eq(old(self)@, single, double),
            sp_cursor_ok(final(self)@),
    {
        let n = self.source.len();
        if self.current + 1 < self.source.len() && self.source[self.current + 1] == '=' {
            self.add_double(double);
        } else {
            self.add_single(single);
        }
    }

    /// Passes a line comment over.
    fn skip_comment(&mut self)
        requires
            sp_cursor_ok(old(self)@),
        ensures
            final(self)@ == sp_skip_comment(old(self)@),
            sp_cursor_ok(final(self)@),
        decreases self.source.len() - self.current,
    {
        let n = self.source.len();
        if self.current < self.source.len() && self.source[self.current] != '\n' {
            self.current = self.current + 1;
            self.skip_comment();
        }
    }

    /// Scans a string literal after its opening quote.
    fn string_body(&mut self, acc: String, loc: Location)
        requires
            sp_cursor_ok(old(self)@),
        ensures
            final(self)@ == sp_string_body(old(self)@, acc@, loc),
            sp_cursor_ok(final(self)@),
        decreases self.source.len() - self.current,
    {
        let n = self.source.len();
        if self.current >= self.source.len() {
            let ghost e0 = self@.errors;
            self.errors.push(
                ScanError { location: loc, message: "Unterminated string".to_owned() },
            );
            proof {
                assert(self@.errors =~= e0.push(self.errors@.last()@));
            }
        } else if self.source[self.current] == '"' {
            let ghost t0 = self@.tokens;
            self.current = self.current + 1;
            let lexeme = acc.clone();
            self.tokens.push(
                Token::new(Type::Str, lexeme, Option::Some(Literal::Str(acc)), loc),
            );
            proof {
                assert(self@.tokens =~= t0.push(self.tokens@.last()@));
            }
        } else if self.source[self.current] == '\n' {
            self.current = self.current + 1;
            self.line = self.line + 1;
            self.column_offset = self.current;
            let mut acc2 = acc;
            push_char(&mut acc2, '\n');
            self.string_body(acc2, loc);
        } else {
            let c = self.source[self.current];
            self.current = self.current + 1;
            let mut acc2 = acc;
            push_char(&mut acc2, c);
            self.string_body(acc2, loc);
        }
    }

    /// Scans a string literal from its opening quote.
    fn string(&mut self)
        requires
            sp_cursor_ok(old(self)@),
            old(self)@.current < old(self)@.source.len(),
        ensures
            final(self)@ == sp_string(old(self)@),
            sp_cursor_ok(final(self)@),
    {
        let n = self.source.len();
        let column: usize = if self.start >= self.column_offset {
            self.start - self.column_offset
        } else {
            0
        };
        let loc = Location::new(self.line, column);
        self.current = self.current + 1;
        self.string_body(String::new(), loc);
    }

    /// Scans the digits of a number, lexeme and value together.
    fn number_body(&mut self, lex: String, acc: Option<i64>) -> (r: (String, Option<i64>))
        requires
            sp_cursor_ok(old(self)@),
            acc matches Option::Some(v) ==> v >= 0,
        ensures
            ({
                let (st2, lex2, acc2) = sp_number_body(old(self)@, lex@, acc);
                final(self)@ == st2 && r.0@ == lex2 && r.1 == acc2
            }),
            sp_cursor_ok(final(self)@),
        decreases self.source.len() - self.current,
    {
        let n = self.source.len();
        if self.current < self.source.len() && is_digit(self.source[self.current]) {
            let c = self.source[self.current];
            self.current = self.current + 1;
            let mut lex2 = lex;
            push_char(&mut lex2, c);
            let d: i64 = (c as u32 as i64) - ('0' as u32 as i64);
            proof {
                assert(d == sp_digit_val(c));
            }
            let acc2: Option<i64> = match acc {
                Option::Some(v) => {
                    if v > (i64::MAX - d) / 10 {
                        Option::None
                    } else {
                        proof {
                            assert(10 * v + d <= i64::MAX && 10 * v + d >= 0) by (nonlinear_arith)
                                requires
                                    0 <= v,
                                    0 <= d <= 9,
                                    v <= (i64::MAX - d) / 10,
                            ;
                        }
                        Option::Some(10 * v + d)
                    }
                },
                Option::None => Option::None,
            };
            self.number_body(lex2, acc2)
        } else {
            (lex, acc)
        }
    }

    /// Passes digits over after a malformed number.
    fn skip_digits(&mut self)
        requires
            sp_cursor_ok(old(self)@),
        ensures
            final(self)@ == sp_skip_digits(old(self)@),
            sp_cursor_ok(final(self)@),
        decreases self.source.len() - self.current,
    {
        let n = self.source.len();
        if self.current < self.source.len() && is_digit(self.source[self.current]) {
            self.current = self.current + 1;
            self.skip_digits();
        }
    }

    /// Scans a number literal.
    fn number(&mut self)
        requires
            sp_cursor_ok(old(self)@),
        ensures
            final(self)@ == sp_number(old(self)@),
            sp_cursor_ok(final(self)@),
    {
        let (lex, acc) = self.number_body(String::new(), Option::Some(0));
        let n = self.source.len();
        if self.current < n && self.current + 1 < n && self.source[self.current] == '.' && is_digit(
            self.source[self.current + 1],
        ) {
            self.add_error("Fractional number literals are not supported".to_owned());
            self.current = self.current + 1;
            self.skip_digits();
        } else {
            match acc {
                Option::Some(v) => {
                    self.add_token(Type::Number, lex, Option::Some(Literal::Num(v)));
                },
                Option::None => {
                    self.add_error("Number too large".to_owned());
                },
            }
        }
    }

    /// Scans the characters of an identifier.
    fn ident_body(&mut self, acc: String) -> (r: String)
        requires
            sp_cursor_ok(old(self)@),
        ensures
            ({
                let (st2, acc2) = sp_ident_body(old(self)@, acc@);
                final(self)@ == st2 && r@ == acc2
            }),
            sp_cursor_ok(final(self)@),
        decreases self.source.len() - self.current,
    {
        let n = self.source.len();
        if self.current < self.source.len() && is_alnum(self.source[self.current]) {
            let c = self.source[self.current];
            self.current = self.current + 1;
            let mut acc2 = acc;
            push_char(&mut acc2, c);
            self.ident_body(acc2)
        } else {
            acc
        }
    }

    /// Scans an identifier or keyword.
    fn identifier(&mut self)
        requires
            sp_cursor_ok(old(self)@),
        ensures
            final(self)@ == sp_identifier(old(self)@),
            sp_cursor_ok(final(self)@),
    {
        let acc = self.ident_body(String::new());
        let kind = keyword(&acc);
        self.add_token(kind, acc, Option::None);
    }

    /// Scans the token, comment, whitespace or error at the cursor.
    fn scan_token(&mut self)
        requires
            sp_cursor_ok(old(self)@),
            old(self)@.current < old(self)@.source.len(),
        ensures
            final(self)@ == sp_scan_token(old(self)@),
            sp_cursor_ok(final(self)@),
    {
        let n = self.source.len();
        let c = self.source[self.current];
        if c == '(' {
            self.add_single(Type::LeftParen);
        } else if c == ')' {
            self.add_single(Type::RightParen);
        } else if c == '{' {
            self.add_single(Type::LeftBrace);
        } else if c == '}' {
            self.add_single(Type::RightBrace);
        } else if c == ',' {
            self.add_single(Type::Comma);
        } else if c == '.' {
            self.add_single(Type::Dot);
        } else if c == '-' {
            self.add_single(Type::Minus);
        } else if c == '+' {
            self.add_single(Type::Plus);
        } else if c == ';' {
            self.add_single(Type::Semicolon);
        } else if c == '*' {
            self.add_single(Type::Star);
        } else if c == '!' {
            self.add_maybe_eq(Type::Bang, Type::BangEqual);
        } else if c == '=' {
            self.add_maybe_eq(Type::Equal, Type::EqualEqual);
        } else if c == '<' {
            self.add_maybe_eq(Type::Less, Type::LessEqual);
        } else if c == '>' {
            self.add_maybe_eq(Type::Greater, Type::GreaterEqual);
        } else if c == '/' {
            if self.current + 1 < self.source.len() && self.source[self.current + 1] == '/' {
                self.skip_comment();
            } else {
                self.add_single(Type::Slash);
            }
        } else if c == ' ' || c == '\r' || c == '\t' {
            self.current = self.current + 1;
        } else if c == '\n' {
            self.current = self.current + 1;
            self.line = self.line + 1;
            self.column_offset = self.current;
        } else if c == '"' {
            self.string();
        } else if is_digit(c) {
            self.number();
        } else if is_alpha(c) {
            self.identifier();
        } else {
            self.current = self.current + 1;
            self.add_error("Unexpected character".to_owned());
        }
    }
}

/// Appends one character to a string being built.
/// Relies on String::push of std: it appends the given character to the
/// end of the string.
#[verifier::external_body]
fn push_char(s: &mut String, c: char)
    ensures
        final(s)@ == old(s)@.push(c),
{
    s.push(c);
}

/// Copies a token list; the copy reads the same.
fn clone_tokens(tokens: &Vec<Token>) -> (r: Vec<Token>)
    ensures
        r@.map_values(|t: Token| t@) == tokens@.map_values(|t: Token| t@),
{
    let mut r: Vec<Token> = Vec::new();
    let mut i: usize = 0;
    while i < tokens.len()
        invariant
            i <= tokens.len(),
            r@.len() == i,
            forall|j: int| 0 <= j < i ==> r@[j] == tokens@[j],
        decreases tokens.len() - i,
    {
        r.push(tokens[i].clone());
        i = i + 1;
    }
    proof {
        assert(r@.map_values(|t: Token| t@) =~= tokens@.map_values(|t: Token| t@));
    }
    r
}

} // verus!
