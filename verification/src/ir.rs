//! The three-address intermediate representation and its text rendering.
//!
//! `Operand` and `Instruction` are the executable IR; `OperandV` and
//! `InstrV` are their ghost mirrors.  The fixed text grammar of the IR is
//! written down once, as `program_text` over instruction views; `render`
//! produces exactly that text.  A floating-point literal is carried as the
//! literal's own text, so rendering it reproduces the source spelling.

use vstd::prelude::*;

use crate::parser::{token_type_name, token_type_name_str};
use crate::text::{
    chars_to_string, dec_digits, int_text, push_chars, push_i64_text, push_str_chars,
    push_usize_text,
};
use crate::token::{TokenType, TypeNode, TypeNodeV};

verus! {

/// An IR value reference: a temporary, a named variable, a literal, or a
/// label reference.
#[derive(Debug, Clone)]
pub enum Operand {
    Temp(usize),
    Var(String),
    Int(i64),
    /// A floating-point literal, kept as its own text.
    Float(String),
    Bool(bool),
    Char(char),
    String(String),
    Label(String),
}

/// Ghost mirror of `Operand`.
pub enum OperandV {
    Temp(usize),
    Var(Seq<char>),
    Int(i64),
    Float(Seq<char>),
    Bool(bool),
    Char(char),
    String(Seq<char>),
    Label(Seq<char>),
}

impl View for Operand {
    type V = OperandV;

    open spec fn view(&self) -> OperandV {
        match self {
            Operand::Temp(i) => OperandV::Temp(*i),
            Operand::Var(s) => OperandV::Var(s@),
            Operand::Int(v) => OperandV::Int(*v),
            Operand::Float(t) => OperandV::Float(t@),
            Operand::Bool(b) => OperandV::Bool(*b),
            Operand::Char(c) => OperandV::Char(*c),
            Operand::String(s) => OperandV::String(s@),
            Operand::Label(l) => OperandV::Label(l@),
        }
    }
}

/// Ghost view of an optional operand.
pub open spec fn opt_op_view(o: Option<Operand>) -> Option<OperandV> {
    match o {
        Option::None => Option::None,
        Option::Some(p) => Option::Some(p@),
    }
}

/// Ghost view of an operand list.
pub open spec fn ops_view(s: Seq<Operand>) -> Seq<OperandV> {
    s.map_values(|o: Operand| o@)
}

/// One IR instruction, as described by the fixed text grammar.
#[derive(Debug, Clone)]
pub enum Instruction {
    /// Typed declaration: type name, variable name, optional initializer.
    Declare(String, String, Option<Operand>),
    /// Plain assignment: destination, source.
    Assign(Operand, Operand),
    /// Binary operation: destination, operator, left, right.
    Binary(Operand, TokenType, Operand, Operand),
    /// Unary operation: destination, operator, operand.
    Unary(Operand, TokenType, Operand),
    Label(String),
    Goto(String),
    /// Conditional branch: left, relational operator, right, target label.
    IfGoto(Operand, TokenType, Operand, String),
    Param(Operand),
    /// Call: optional destination, callee name, argument count.
    Call(Option<Operand>, String, usize),
    Return(Option<Operand>),
    /// Function-begin marker: name, return-type name, (type, name) params.
    FuncStart(String, String, Vec<(String, String)>),
    FuncEnd,
    Print(Vec<Operand>),
    Comment(String),
}

/// Ghost mirror of `Instruction`.
pub enum InstrV {
    Declare(Seq<char>, Seq<char>, Option<OperandV>),
    Assign(OperandV, OperandV),
    Binary(OperandV, TokenType, OperandV, OperandV),
    Unary(OperandV, TokenType, OperandV),
    Label(Seq<char>),
    Goto(Seq<char>),
    IfGoto(OperandV, TokenType, OperandV, Seq<char>),
    Param(OperandV),
    Call(Option<OperandV>, Seq<char>, usize),
    Return(Option<OperandV>),
    FuncStart(Seq<char>, Seq<char>, Seq<(Seq<char>, Seq<char>)>),
    FuncEnd,
    Print(Seq<OperandV>),
    Comment(Seq<char>),
}

/// Ghost view of a string-pair list.
pub open spec fn pairs_view(s: Seq<(String, String)>) -> Seq<(Seq<char>, Seq<char>)> {
    s.map_values(|p: (String, String)| (p.0@, p.1@))
}

impl View for Instruction {
    type V = InstrV;

    open spec fn view(&self) -> InstrV {
        match self {
            Instruction::Declare(t, n, init) => InstrV::Declare(t@, n@, opt_op_view(*init)),
            Instruction::Assign(d, s) => InstrV::Assign(d@, s@),
            Instruction::Binary(d, op, l, r) => InstrV::Binary(d@, *op, l@, r@),
            Instruction::Unary(d, op, s) => InstrV::Unary(d@, *op, s@),
            Instruction::Label(l) => InstrV::Label(l@),
            Instruction::Goto(l) => InstrV::Goto(l@),
            Instruction::IfGoto(l, op, r, t) => InstrV::IfGoto(l@, *op, r@, t@),
            Instruction::Param(p) => InstrV::Param(p@),
            Instruction::Call(d, f, n) => InstrV::Call(opt_op_view(*d), f@, *n),
            Instruction::Return(v) => InstrV::Return(opt_op_view(*v)),
            Instruction::FuncStart(n, r, ps) => InstrV::FuncStart(n@, r@, pairs_view(ps@)),
            Instruction::FuncEnd => InstrV::FuncEnd,
            Instruction::Print(args) => InstrV::Print(ops_view(args@)),
            Instruction::Comment(c) => InstrV::Comment(c@),
        }
    }
}

/// Ghost view of an instruction sequence, instruction by instruction.
pub open spec fn insns_view(s: Seq<Instruction>) -> Seq<InstrV> {
    s.map_values(|i: Instruction| i@)
}

/// The printed name of a builtin or user-defined type.
pub open spec fn type_name_text(t: TypeNodeV) -> Seq<char> {
    match t {
        TypeNodeV::Builtin(tok) => match tok {
            TokenType::Int => "int"@,
            TokenType::Float => "float"@,
            TokenType::Double => "double"@,
            TokenType::Char => "char"@,
            TokenType::Bool => "bool"@,
            TokenType::Void => "void"@,
            TokenType::String => "string"@,
            _ => "unknown"@,
        },
        TypeNodeV::UserDefined(name) => name,
    }
}

/// The printed name of a type, as text.
pub fn type_node_to_str(t: &TypeNode) -> (r: String)
    ensures
        r@ == type_name_text(t@),
{
    match t {
        TypeNode::Builtin(tok) => match tok {
            TokenType::Int => String::from_str("int"),
            TokenType::Float => String::from_str("float"),
            TokenType::Double => String::from_str("double"),
            TokenType::Char => String::from_str("char"),
            TokenType::Bool => String::from_str("bool"),
            TokenType::Void => String::from_str("void"),
            TokenType::String => String::from_str("string"),
            _ => String::from_str("unknown"),
        },
        TypeNode::UserDefined(name) => name.clone(),
    }
}

/// The rendered text of one operand.
pub open spec fn operand_text(o: OperandV) -> Seq<char> {
    match o {
        OperandV::Temp(i) => "t"@ + dec_digits(i as nat),
        OperandV::Var(s) => s,
        OperandV::Int(v) => int_text(v as int),
        OperandV::Float(t) => t,
        OperandV::Bool(b) => if b {
            "true"@
        } else {
            "false"@
        },
        OperandV::Char(c) => "'"@ + seq![c] + "'"@,
        OperandV::String(s) => "\""@ + s + "\""@,
        OperandV::Label(l) => l,
    }
}

/// The rendered parameter list of a function-begin marker, comma separated.
pub open spec fn params_text(ps: Seq<(Seq<char>, Seq<char>)>) -> Seq<char>
    decreases ps.len(),
{
    if ps.len() == 0 {
        Seq::empty()
    } else if ps.len() == 1 {
        ps[0].0 + " "@ + ps[0].1
    } else {
        params_text(ps.drop_last()) + ", "@ + ps.last().0 + " "@ + ps.last().1
    }
}

/// The rendered argument list of a print instruction, comma separated.
pub open spec fn print_args_text(args: Seq<OperandV>) -> Seq<char>
    decreases args.len(),
{
    if args.len() == 0 {
        Seq::empty()
    } else if args.len() == 1 {
        operand_text(args[0])
    } else {
        print_args_text(args.drop_last()) + ", "@ + operand_text(args.last())
    }
}

/// The rendered text of one instruction (without the line terminator).
pub open spec fn instr_text(i: InstrV) -> Seq<char> {
    match i {
        InstrV::Declare(t, n, init) => match init {
            Option::Some(v) => t + " "@ + n + " = "@ + operand_text(v),
            Option::None => t + " "@ + n,
        },
        InstrV::Assign(d, s) => operand_text(d) + " = "@ + operand_text(s),
        InstrV::Binary(d, op, l, r) => operand_text(d) + " = "@ + operand_text(l) + " "@
            + token_type_name(op) + " "@ + operand_text(r),
        InstrV::Unary(d, op, s) => operand_text(d) + " = "@ + token_type_name(op) + " "@
            + operand_text(s),
        InstrV::Label(l) => l + ":"@,
        InstrV::Goto(l) => "goto "@ + l,
        InstrV::IfGoto(l, op, r, t) => "if "@ + operand_text(l) + " "@ + token_type_name(op)
            + " "@ + operand_text(r) + " goto "@ + t,
        InstrV::Param(p) => "param "@ + operand_text(p),
        InstrV::Call(d, f, n) => match d {
            Option::Some(dd) => operand_text(dd) + " = call "@ + f + ", "@ + dec_digits(n as nat),
            Option::None => "call "@ + f + ", "@ + dec_digits(n as nat),
        },
        InstrV::Return(v) => match v {
            Option::Some(vv) => "return "@ + operand_text(vv),
            Option::None => "return"@,
        },
        InstrV::FuncStart(n, r, ps) => "\n"@ + r + " "@ + n + "("@ + params_text(ps)
            + ") begin:"@,
        InstrV::FuncEnd => "end\n"@,
        InstrV::Print(args) => "print "@ + print_args_text(args),
        InstrV::Comment(c) => "; "@ + c,
    }
}

/// The rendered text of a whole instruction sequence: each instruction's
/// text, each followed by a line terminator.
pub open spec fn program_text(s: Seq<InstrV>) -> Seq<char>
    decreases s.len(),
{
    if s.len() == 0 {
        Seq::empty()
    } else {
        program_text(s.drop_last()) + instr_text(s.last()) + "\n"@
    }
}

/// Appends the rendered text of `o` to `out`.
pub fn push_operand_text(out: &mut Vec<char>, o: &Operand)
    ensures
        final(out)@ == old(out)@ + operand_text(o@),
{
    match o {
        Operand::Temp(i) => {
            push_str_chars(out, "t");
            push_usize_text(out, *i);
        },
        Operand::Var(s) => {
            push_str_chars(out, s.as_str());
        },
        Operand::Int(v) => {
            push_i64_text(out, *v);
        },
        Operand::Float(t) => {
            push_str_chars(out, t.as_str());
        },
        Operand::Bool(b) => {
            if *b {
                push_str_chars(out, "true");
            } else {
                push_str_chars(out, "false");
            }
        },
        Operand::Char(c) => {
            push_str_chars(out, "'");
            out.push(*c);
            push_str_chars(out, "'");
        },
        Operand::String(s) => {
            push_str_chars(out, "\"");
            push_str_chars(out, s.as_str());
            push_str_chars(out, "\"");
        },
        Operand::Label(l) => {
            push_str_chars(out, l.as_str());
        },
    }
    proof {
        assert(final(out)@ =~= old(out)@ + operand_text(o@));
    }
}

/// Appends the rendered text of `i` to `out`.
#[verifier::loop_isolation(false)]
#[verifier::rlimit(100)]
pub fn push_instr_text(out: &mut Vec<char>, i: &Instruction)
    ensures
        final(out)@ == old(out)@ + instr_text(i@),
{
    match i {
        Instruction::Declare(t, n, init) => {
            push_str_chars(out, t.as_str());
            push_str_chars(out, " ");
            push_str_chars(out, n.as_str());
            match init {
                Some(v) => {
                    push_str_chars(out, " = ");
                    push_operand_text(out, v);
                },
                None => {},
            }
        },
        Instruction::Assign(d, s) => {
            push_operand_text(out, d);
            push_str_chars(out, " = ");
            push_operand_text(out, s);
        },
        Instruction::Binary(d, op, l, r) => {
            push_operand_text(out, d);
            push_str_chars(out, " = ");
            push_operand_text(out, l);
            push_str_chars(out, " ");
            push_str_chars(out, token_type_name_str(*op));
            push_str_chars(out, " ");
            push_operand_text(out, r);
        },
        Instruction::Unary(d, op, s) => {
            push_operand_text(out, d);
            push_str_chars(out, " = ");
            push_str_chars(out, token_type_name_str(*op));
            push_str_chars(out, " ");
            push_operand_text(out, s);
        },
        Instruction::Label(l) => {
            push_str_chars(out, l.as_str());
            push_str_chars(out, ":");
        },
        Instruction::Goto(l) => {
            push_str_chars(out, "goto ");
            push_str_chars(out, l.as_str());
        },
        Instruction::IfGoto(l, op, r, t) => {
            push_str_chars(out, "if ");
            push_operand_text(out, l);
            push_str_chars(out, " ");
            push_str_chars(out, token_type_name_str(*op));
            push_str_chars(out, " ");
            push_operand_text(out, r);
            push_str_chars(out, " goto ");
            push_str_chars(out, t.as_str());
        },
        Instruction::Param(p) => {
            push_str_chars(out, "param ");
            push_operand_text(out, p);
        },
        Instruction::Call(d, f, n) => {
            match d {
                Some(dd) => {
                    push_operand_text(out, dd);
                    push_str_chars(out, " = call ");
                },
                None => {
                    push_str_chars(out, "call ");
                },
            }
            push_str_chars(out, f.as_str());
            push_str_chars(out, ", ");
            push_usize_text(out, *n);
        },
        Instruction::Return(v) => {
            match v {
                Some(vv) => {
                    push_str_chars(out, "return ");
                    push_operand_text(out, vv);
                },
                None => {
                    push_str_chars(out, "return");
                },
            }
        },
        Instruction::FuncStart(n, r, ps) => {
            push_str_chars(out, "\n");
            push_str_chars(out, r.as_str());
            push_str_chars(out, " ");
            push_str_chars(out, n.as_str());
            push_str_chars(out, "(");
            let m: usize = ps.len();
            let mut k: usize = 0;
            while k < m
                invariant
                    k <= m,
                    m == ps@.len(),
                    out@ == old(out)@ + "\n"@ + r@ + " "@ + n@ + "("@ + params_text(
                        pairs_view(ps@).take(k as int),
                    ),
                decreases m - k,
            {
                if k > 0 {
                    push_str_chars(out, ", ");
                }
                push_str_chars(out, ps[k].0.as_str());
                push_str_chars(out, " ");
                push_str_chars(out, ps[k].1.as_str());
                k = k + 1;
                proof {
                    assert(pairs_view(ps@).take(k as int).drop_last() =~= pairs_view(ps@).take(
                        k as int - 1,
                    ));
                    assert(pairs_view(ps@).take(k as int).last() == (ps@[k as int - 1].0@, ps@[k
                        as int - 1].1@));
                    assert(out@ =~= old(out)@ + "\n"@ + r@ + " "@ + n@ + "("@ + params_text(
                        pairs_view(ps@).take(k as int),
                    ));
                }
            }
            proof {
                assert(pairs_view(ps@).take(m as int) =~= pairs_view(ps@));
            }
            push_str_chars(out, ") begin:");
        },
        Instruction::FuncEnd => {
            push_str_chars(out, "end\n");
        },
        Instruction::Print(args) => {
            push_str_chars(out, "print ");
            let m: usize = args.len();
            let mut k: usize = 0;
            while k < m
                invariant
                    k <= m,
                    m == args@.len(),
                    out@ == old(out)@ + "print "@ + print_args_text(ops_view(args@).take(
                        k as int,
                    )),
                decreases m - k,
            {
                if k > 0 {
                    push_str_chars(out, ", ");
                }
                push_operand_text(out, &args[k]);
                k = k + 1;
                proof {
                    assert(ops_view(args@).take(k as int).drop_last() =~= ops_view(args@).take(
                        k as int - 1,
                    ));
                    assert(ops_view(args@).take(k as int).last() == args@[k as int - 1]@);
                    assert(out@ =~= old(out)@ + "print "@ + print_args_text(ops_view(args@).take(
                        k as int,
                    )));
                }
            }
            proof {
                assert(ops_view(args@).take(m as int) =~= ops_view(args@));
            }
        },
        Instruction::Comment(c) => {
            push_str_chars(out, "; ");
            push_str_chars(out, c.as_str());
        },
    }
    proof {
        assert(final(out)@ =~= old(out)@ + instr_text(i@));
    }
}

/// Renders a whole instruction sequence to the fixed text grammar: one
/// instruction per line.
#[verifier::loop_isolation(false)]
pub fn render(ins: &Vec<Instruction>) -> (r: String)
    ensures
        r@ == program_text(insns_view(ins@)),
{
    let mut out: Vec<char> = Vec::new();
    let n: usize = ins.len();
    let mut k: usize = 0;
    while k < n
        invariant
            k <= n,
            n == ins@.len(),
            out@ == program_text(insns_view(ins@).take(k as int)),
        decreases n - k,
    {
        push_instr_text(&mut out, &ins[k]);
        push_str_chars(&mut out, "\n");
        k = k + 1;
        proof {
            assert(insns_view(ins@).take(k as int).drop_last() =~= insns_view(ins@).take(
                k as int - 1,
            ));
            assert(insns_view(ins@).take(k as int).last() == ins@[k as int - 1]@);
            assert(out@ =~= program_text(insns_view(ins@).take(k as int)));
        }
    }
    proof {
        assert(insns_view(ins@).take(n as int) =~= insns_view(ins@));
    }
    chars_to_string(&out)
}

} // verus!
