use vstd::prelude::*;

use crate::interpreter::Interpreter;
use crate::literal::{LitV, Literal};
use crate::object::{Object, ValueV};
use crate::token::{Token, TokenV, Type};

verus! {

/// The character of one decimal digit.
pub open spec fn sp_digit_char(d: nat) -> char {
    if d == 0 {
        '0'
    } else if d == 1 {
        '1'
    } else if d == 2 {
        '2'
    } else if d == 3 {
        '3'
    } else if d == 4 {
        '4'
    } else if d == 5 {
        '5'
    } else if d == 6 {
        '6'
    } else if d == 7 {
        '7'
    } else if d == 8 {
        '8'
    } else {
        '9'
    }
}

/// The decimal numeral of a number, most significant digit first.
pub open spec fn sp_digits(n: nat) -> Seq<char>
    decreases n,
{
    if n < 10 {
        seq![sp_digit_char(n)]
    } else {
        sp_digits(n / 10) + seq![sp_digit_char(n % 10)]
    }
}

/// One decimal digit as text.
fn digit_str(d: u64) -> (r: &'static str)
    requires
        d < 10,
    ensures
        r@ == seq![sp_digit_char(d as nat)],
{
    let r: &'static str = if d == 0 {
        "0"
    } else if d == 1 {
        "1"
    } else if d == 2 {
        "2"
    } else if d == 3 {
        "3"
    } else if d == 4 {
        "4"
    } else if d == 5 {
        "5"
    } else if d == 6 {
        "6"
    } else if d == 7 {
        "7"
    } else if d == 8 {
        "8"
    } else {
        "9"
    };
    proof {
        reveal_strlit("0");
        reveal_strlit("1");
        reveal_strlit("2");
        reveal_strlit("3");
        reveal_strlit("4");
        reveal_strlit("5");
        reveal_strlit("6");
        reveal_strlit("7");
        reveal_strlit("8");
        reveal_strlit("9");
        assert(r@ =~= seq![sp_digit_char(d as nat)]);
    }
    r
}

/// Renders a number as its decimal numeral.
pub fn u64_to_string(n: u64) -> (r: String)
    ensures
        r@ == sp_digits(n as nat),
    decreases n,
{
    if n < 10 {
        digit_str(n).to_owned()
    } else {
        let mut r = u64_to_string(n / 10);
        r.append(digit_str(n % 10));
        r
    }
}

/// The decimal rendering of a signed number: a minus sign before the
/// numeral of its magnitude.
pub open spec fn sp_i64_str(n: i64) -> Seq<char> {
    if n < 0 {
        seq!['-'] + sp_digits((-(n as int)) as nat)
    } else {
        sp_digits(n as nat)
    }
}

/// Renders a signed number.
pub fn i64_to_string(n: i64) -> (r: String)
    ensures
        r@ == sp_i64_str(n),
{
    if n >= 0 {
        u64_to_string(n as u64)
    } else {
        let mag: u64 = if n == i64::MIN {
            9223372036854775808u64
        } else {
            (-n) as u64
        };
        let mut r: String = "-".to_owned();
        let digits = u64_to_string(mag);
        r.append(digits.as_str());
        proof {
            reveal_strlit("-");
            assert(r@ =~= sp_i64_str(n));
        }
        r
    }
}

/// How a literal prints: strings print their text bare, numbers their
/// decimal numeral, booleans and `null` their keywords.
pub open spec fn sp_lit_display(l: LitV) -> Seq<char> {
    match l {
        LitV::Null => "null"@,
        LitV::Bool(b) => if b {
            "true"@
        } else {
            "false"@
        },
        LitV::Num(n) => sp_i64_str(n),
        LitV::Str(s) => s,
    }
}

impl Literal {
    /// Renders the literal the way `print` shows it.
    pub fn to_display_string(&self) -> (r: String)
        ensures
            r@ == sp_lit_display(self@),
    {
        match self {
            Literal::Null => "null".to_owned(),
            Literal::Bool(b) => if *b {
                "true".to_owned()
            } else {
                "false".to_owned()
            },
            Literal::Num(n) => i64_to_string(*n),
            Literal::Str(s) => s.clone(),
        }
    }
}

/// The name of a token kind, as it reads in the source.
pub open spec fn sp_type_label(t: Type) -> Seq<char> {
    match t {
        Type::LeftParen => "LeftParen"@,
        Type::RightParen => "RightParen"@,
        Type::LeftBrace => "LeftBrace"@,
        Type::RightBrace => "RightBrace"@,
        Type::Comma => "Comma"@,
        Type::Dot => "Dot"@,
        Type::Minus => "Minus"@,
        Type::Plus => "Plus"@,
        Type::Semicolon => "Semicolon"@,
        Type::Slash => "Slash"@,
        Type::Star => "Star"@,
        Type::Bang => "Bang"@,
        Type::BangEqual => "BangEqual"@,
        Type::Equal => "Equal"@,
        Type::EqualEqual => "EqualEqual"@,
        Type::Greater => "Greater"@,
        Type::GreaterEqual => "GreaterEqual"@,
        Type::Less => "Less"@,
        Type::LessEqual => "LessEqual"@,
        Type::Identifier => "Identifier"@,
        Type::Str => "Str"@,
        Type::Number => "Number"@,
        Type::And => "And"@,
        Type::Class => "Class"@,
        Type::Else => "Else"@,
        Type::False => "False"@,
        Type::Fun => "Fun"@,
        Type::For => "For"@,
        Type::If => "If"@,
        Type::Null => "Null"@,
        Type::Or => "Or"@,
        Type::Print => "Print"@,
        Type::Return => "Return"@,
        Type::Break => "Break"@,
        Type::Super => "Super"@,
        Type::This => "This"@,
        Type::True => "True"@,
        Type::Var => "Var"@,
        Type::While => "While"@,
        Type::EOF => "EOF"@,
    }
}

/// The name of a token kind.
pub fn type_label(t: Type) -> (r: &'static str)
    ensures
        r@ == sp_type_label(t),
{
    match t {
        Type::LeftParen => "LeftParen",
        Type::RightParen => "RightParen",
        Type::LeftBrace => "LeftBrace",
        Type::RightBrace => "RightBrace",
        Type::Comma => "Comma",
        Type::Dot => "Dot",
        Type::Minus => "Minus",
        Type::Plus => "Plus",
        Type::Semicolon => "Semicolon",
        Type::Slash => "Slash",
        Type::Star => "Star",
        Type::Bang => "Bang",
        Type::BangEqual => "BangEqual",
        Type::Equal => "Equal",
        Type::EqualEqual => "EqualEqual",
        Type::Greater => "Greater",
        Type::GreaterEqual => "GreaterEqual",
        Type::Less => "Less",
        Type::LessEqual => "LessEqual",
        Type::Identifier => "Identifier",
        Type::Str => "Str",
        Type::Number => "Number",
        Type::And => "And",
        Type::Class => "Class",
        Type::Else => "Else",
        Type::False => "False",
        Type::Fun => "Fun",
        Type::For => "For",
        Type::If => "If",
        Type::Null => "Null",
        Type::Or => "Or",
        Type::Print => "Print",
        Type::Return => "Return",
        Type::Break => "Break",
        Type::Super => "Super",
        Type::This => "This",
        Type::True => "True",
        Type::Var => "Var",
        Type::While => "While",
        Type::EOF => "EOF",
    }
}

/// How a token's literal payload reads: `None` without one, the payload's
/// own display otherwise.
pub open spec fn sp_literal_label(l: Option<LitV>) -> Seq<char> {
    match l {
        Option::None => "None"@,
        Option::Some(lv) => sp_lit_display(lv),
    }
}

/// How a token reads: its kind, its lexeme, its literal payload, and its
/// position as line and column.
pub open spec fn sp_token_display(t: TokenV) -> Seq<char> {
    sp_type_label(t.kind) + " "@ + t.lexeme + " "@ + sp_literal_label(t.literal) + " @ ["@
        + sp_digits(t.location.line as nat) + ":"@ + sp_digits(t.location.column as nat) + "]"@
}

impl Token {
    /// Renders the token for error reports and inspection.
    pub fn to_display_string(&self) -> (r: String)
        ensures
            r@ == sp_token_display(self@),
    {
        let mut r: String = type_label(self.kind).to_owned();
        r.append(" ");
        r.append(self.lexeme.as_str());
        r.append(" ");
        match &self.literal {
            Option::None => {
                r.append("None");
                proof {
                    reveal_strlit("None");
                }
            },
            Option::Some(l) => {
                let ls = l.to_display_string();
                r.append(ls.as_str());
            },
        }
        r.append(" @ [");
        let line = u64_to_string(self.location.line as u64);
        r.append(line.as_str());
        r.append(":");
        let col = u64_to_string(self.location.column as u64);
        r.append(col.as_str());
        r.append("]");
        proof {
            assert(r@ =~= sp_token_display(self@));
        }
        r
    }
}

/// How a runtime value prints: literals by their own display; functions,
/// native functions and classes by their names; an instance by its class's
/// name. A handle that points outside its arena, which the interpreter
/// never hands out, prints without a name.
pub open spec fn sp_value_display(st: crate::interpreter::StateV, v: ValueV) -> Seq<char> {
    match v {
        ValueV::Lit(l) => sp_lit_display(l),
        ValueV::Fun(fid) => if 0 <= fid < st.funs.len() {
            "<function "@ + st.funs[fid].name + ">"@
        } else {
            "<function>"@
        },
        ValueV::Native(name) => "<native function "@ + name + ">"@,
        ValueV::Class(cid) => if 0 <= cid < st.classes.len() {
            "<class "@ + st.classes[cid].name + ">"@
        } else {
            "<class>"@
        },
        ValueV::Inst(iid) => if 0 <= iid < st.instances.len() && 0 <= st.instances[iid].class
            < st.classes.len() {
            "<instance "@ + st.classes[st.instances[iid].class].name + ">"@
        } else {
            "<instance>"@
        },
    }
}

impl Interpreter {
    /// Renders a value the way the driver prints it.
    pub fn render(&self, v: &Object) -> (r: String)
        ensures
            r@ == sp_value_display(self@, v@),
    {
        match v {
            Object::Literal(l) => l.to_display_string(),
            Object::Function(fid) => {
                if *fid < self.funs.len() {
                    proof {
                        assert(self@.funs[*fid as int] == self.funs@[*fid as int]@);
                    }
                    let mut r: String = "<function ".to_owned();
                    r.append(self.funs[*fid].name.as_str());
                    r.append(">");
                    proof {
                        assert(r@ =~= sp_value_display(self@, v@));
                    }
                    r
                } else {
                    "<function>".to_owned()
                }
            },
            Object::NativeFunction(n) => {
                let mut r: String = "<native function ".to_owned();
                r.append(n.name.as_str());
                r.append(">");
                proof {
                    assert(r@ =~= sp_value_display(self@, v@));
                }
                r
            },
            Object::Class(cid) => {
                if *cid < self.classes.len() {
                    proof {
                        assert(self@.classes[*cid as int] == self.classes@[*cid as int]@);
                    }
                    let mut r: String = "<class ".to_owned();
                    r.append(self.classes[*cid].name.as_str());
                    r.append(">");
                    proof {
                        assert(r@ =~= sp_value_display(self@, v@));
                    }
                    r
                } else {
                    "<class>".to_owned()
                }
            },
            Object::Instance(iid) => {
                if *iid < self.instances.len() && self.instances[*iid].class < self.classes.len() {
                    proof {
                        assert(self@.instances[*iid as int] == self.instances@[*iid as int]@);
                        assert(self@.classes[self@.instances[*iid as int].class]
                            == self.classes@[self.instances@[*iid as int].class as int]@);
                    }
                    let cid = self.instances[*iid].class;
                    let mut r: String = "<instance ".to_owned();
                    r.append(self.classes[cid].name.as_str());
                    r.append(">");
                    proof {
                        assert(r@ =~= sp_value_display(self@, v@));
                    }
                    r
                } else {
                    "<instance>".to_owned()
                }
            },
        }
    }
}

} // verus!
