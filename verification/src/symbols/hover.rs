//! What is shown for the symbol under the cursor.
//!
//! The type context of the compiler answers what a symbol is; this module
//! says which question to ask for a symbol and how the answer is rendered.

use crate::symbols::lookup::SymbolEntry;
use crate::symbols::lookup::SymbolKind;
use vstd::prelude::*;
use vstd::string::StringExecFns;

verus! {

/// The kind of a type definition.
#[derive(Clone, Copy, Debug, PartialEq, Eq, Hash, Structural)]
pub enum TypeKind {
    Struct { builtin: bool },
    Trait,
    Enum,
}

/// What the type context knows of a symbol, already in words.
#[derive(Debug)]
pub enum HoverFacts {
    /// The definition of a type: its visibility, kind and qualified name.
    Type { visibility: String, kind: TypeKind, name: String },
    /// A callable: its visibility, where it has one, and its signature.
    Callable { visibility: Option<String>, signature: String },
    /// The field that a member expression reads.
    Member { visibility: String, name: String, field_type: String },
    /// A case of an enumeration, with the types of its parameters.
    Variant { enum_name: String, case_name: String, parameters: Vec<String> },
    /// The type of a pattern.
    Pattern { type_text: String },
    /// A field of a structure, with the name of the structure.
    Field { owner: String, name: String, field_type: String },
    /// A variable, with its type.
    Variable { name: String, type_text: String },
    /// The type context knows nothing of the symbol.
    Unknown,
}

/// `body` within a fenced block of Lume code.
pub open spec fn fenced(body: Seq<char>) -> Seq<char> {
    "```lm\n"@ + body + "\n```"@
}

/// The texts of `items` from position `from` on, with `", "` between them.
pub open spec fn joined(items: Seq<String>, from: nat) -> Seq<char>
    decreases items.len() - from,
{
    if from >= items.len() {
        Seq::empty()
    } else if from + 1 == items.len() {
        items[from as int]@
    } else {
        (items[from as int]@ + ", "@) + joined(items, from + 1)
    }
}

/// The parameters of a case in round brackets; nothing where it has none.
pub open spec fn parameter_list(parameters: Seq<String>) -> Seq<char> {
    if parameters.len() == 0 {
        Seq::empty()
    } else {
        "("@ + joined(parameters, 0) + ")"@
    }
}

/// The keyword of a kind of type, with what qualifies it.
pub open spec fn kind_words(kind: TypeKind) -> Seq<char> {
    match kind {
        TypeKind::Struct { builtin } => if builtin {
            " struct builtin "@
        } else {
            " struct "@
        },
        TypeKind::Trait => " trait "@,
        TypeKind::Enum => " enum "@,
    }
}

pub open spec fn type_content(visibility: Seq<char>, kind: TypeKind, name: Seq<char>) -> Seq<char> {
    fenced(visibility + kind_words(kind) + name)
}

pub open spec fn callable_content(visibility: Option<String>, signature: Seq<char>) -> Seq<char> {
    fenced(
        (match visibility {
            Some(visibility) => visibility@ + " "@,
            None => Seq::empty(),
        }) + signature,
    )
}

pub open spec fn member_content(
    visibility: Seq<char>,
    name: Seq<char>,
    field_type: Seq<char>,
) -> Seq<char> {
    fenced(visibility + " "@ + name + ": "@ + field_type)
}

pub open spec fn variant_content(
    enum_name: Seq<char>,
    case_name: Seq<char>,
    parameters: Seq<String>,
) -> Seq<char> {
    fenced(enum_name + "::"@ + case_name + parameter_list(parameters))
}

pub open spec fn pattern_content(type_text: Seq<char>) -> Seq<char> {
    fenced(type_text)
}

pub open spec fn field_content(owner: Seq<char>, name: Seq<char>, field_type: Seq<char>) -> Seq<
    char,
> {
    fenced(owner + "\n\n"@ + name + ": "@ + field_type + ";"@)
}

pub open spec fn variable_content(name: Seq<char>, type_text: Seq<char>) -> Seq<char> {
    fenced("let "@ + name + ": "@ + type_text + ";"@)
}

/// Whether facts of this kind answer for a symbol of this kind.
pub open spec fn answers_for(kind: SymbolKind, facts: HoverFacts) -> bool {
    match kind {
        SymbolKind::Type { .. } => facts is Type,
        SymbolKind::Callable { .. } => facts is Callable,
        SymbolKind::Member { .. } => facts is Member,
        SymbolKind::Variant { .. } => facts is Variant,
        SymbolKind::Pattern { .. } => facts is Pattern,
        SymbolKind::Field { .. } => facts is Field,
        SymbolKind::Call { .. } => facts is Callable,
        SymbolKind::VariableReference { .. } => facts is Variable,
    }
}

/// What is shown for facts of each kind.
pub open spec fn rendered(facts: HoverFacts) -> Seq<char> {
    match facts {
        HoverFacts::Type { visibility, kind, name } => type_content(visibility@, kind, name@),
        HoverFacts::Callable { visibility, signature } => callable_content(visibility, signature@),
        HoverFacts::Member { visibility, name, field_type } => member_content(
            visibility@,
            name@,
            field_type@,
        ),
        HoverFacts::Variant { enum_name, case_name, parameters } => variant_content(
            enum_name@,
            case_name@,
            parameters@,
        ),
        HoverFacts::Pattern { type_text } => pattern_content(type_text@),
        HoverFacts::Field { owner, name, field_type } => field_content(
            owner@,
            name@,
            field_type@,
        ),
        HoverFacts::Variable { name, type_text } => variable_content(name@, type_text@),
        HoverFacts::Unknown => Seq::empty(),
    }
}

/// What is shown for a symbol, given what the type context knows of it:
/// nothing where there is no symbol, or where the facts are not of the kind
/// that the symbol asks for.
pub open spec fn hover_content(symbol: Option<&SymbolEntry>, facts: HoverFacts) -> Seq<char> {
    match symbol {
        Some(entry) => if answers_for(entry.kind, facts) {
            rendered(facts)
        } else {
            Seq::empty()
        },
        None => Seq::empty(),
    }
}

fn fence(body: String) -> (r: String)
    ensures
        r@ == fenced(body@),
{
    let mut text = String::from_str("```lm\n");
    text.append(body.as_str());
    text.append("\n```");
    text
}

fn join_parameters(items: &Vec<String>) -> (r: String)
    ensures
        r@ == joined(items@, 0),
{
    let mut text = String::new();
    let mut i: usize = 0;
    assert(joined(items@, 0) =~= text@ + joined(items@, 0));
    while i < items.len()
        invariant
            0 <= i <= items.len(),
            joined(items@, 0) == text@ + joined(items@, i as nat),
        decreases items.len() - i,
    {
        let ghost before = text@;
        let ghost rest = joined(items@, (i + 1) as nat);
        text.append(items[i].as_str());
        if i + 1 < items.len() {
            text.append(", ");
            assert(text@ + rest =~= before + ((items@[i as int]@ + ", "@) + rest));
        } else {
            assert(rest =~= Seq::<char>::empty());
            assert(text@ + rest =~= before + items@[i as int]@);
        }
        i = i + 1;
    }
    assert(text@ + Seq::<char>::empty() =~= text@);
    text
}

pub fn hover_content_of_type(visibility: &str, kind: TypeKind, name: &str) -> (r: String)
    ensures
        r@ == type_content(visibility@, kind, name@),
{
    let mut body = String::from_str(visibility);
    match kind {
        TypeKind::Struct { builtin } => {
            if builtin {
                body.append(" struct builtin ");
            } else {
                body.append(" struct ");
            }
        },
        TypeKind::Trait => {
            body.append(" trait ");
        },
        TypeKind::Enum => {
            body.append(" enum ");
        },
    }
    body.append(name);
    fence(body)
}

pub fn hover_content_of_callable(visibility: &Option<String>, signature: &str) -> (r: String)
    ensures
        r@ == callable_content(*visibility, signature@),
{
    let mut body = String::new();
    match visibility {
        Some(visibility) => {
            body.append(visibility.as_str());
            body.append(" ");
        },
        None => {},
    }
    let ghost prefix = body@;
    body.append(signature);
    assert(body@ =~= prefix + signature@);
    assert(visibility.is_none() ==> prefix =~= Seq::<char>::empty());
    assert(visibility.is_some() ==> prefix =~= visibility.unwrap()@ + " "@);
    fence(body)
}

pub fn hover_content_of_member(visibility: &str, name: &str, field_type: &str) -> (r: String)
    ensures
        r@ == member_content(visibility@, name@, field_type@),
{
    let mut body = String::from_str(visibility);
    body.append(" ");
    body.append(name);
    body.append(": ");
    body.append(field_type);
    fence(body)
}

pub fn hover_content_of_variant(enum_name: &str, case_name: &str, parameters: &Vec<String>) -> (r:
    String)
    ensures
        r@ == variant_content(enum_name@, case_name@, parameters@),
{
    let mut body = String::from_str(enum_name);
    body.append("::");
    body.append(case_name);
    let ghost head = body@;
    if parameters.len() > 0 {
        let fields = join_parameters(parameters);
        body.append("(");
        body.append(fields.as_str());
        body.append(")");
        assert(body@ =~= head + ("("@ + joined(parameters@, 0) + ")"@));
    } else {
        assert(body@ =~= head + Seq::<char>::empty());
    }
    fence(body)
}

pub fn hover_content_of_pattern(type_text: &str) -> (r: String)
    ensures
        r@ == pattern_content(type_text@),
{
    fence(String::from_str(type_text))
}

pub fn hover_content_of_field(owner: &str, name: &str, field_type: &str) -> (r: String)
    ensures
        r@ == field_content(owner@, name@, field_type@),
{
    let mut body = String::from_str(owner);
    body.append("\n\n");
    body.append(name);
    body.append(": ");
    body.append(field_type);
    body.append(";");
    fence(body)
}

pub fn hover_content_of_variable_ref(name: &str, type_text: &str) -> (r: String)
    ensures
        r@ == variable_content(name@, type_text@),
{
    let mut body = String::from_str("let ");
    body.append(name);
    body.append(": ");
    body.append(type_text);
    body.append(";");
    fence(body)
}

/// A call is shown as the callable that it calls.
pub fn hover_content_of_call(visibility: &Option<String>, signature: &str) -> (r: String)
    ensures
        r@ == callable_content(*visibility, signature@),
{
    hover_content_of_callable(visibility, signature)
}

/// Whether facts of this kind answer for a symbol of this kind.
pub fn facts_answer(kind: &SymbolKind, facts: &HoverFacts) -> (r: bool)
    ensures
        r == answers_for(*kind, *facts),
{
    match kind {
        SymbolKind::Type { .. } => matches!(facts, HoverFacts::Type { .. }),
        SymbolKind::Callable { .. } => matches!(facts, HoverFacts::Callable { .. }),
        SymbolKind::Member { .. } => matches!(facts, HoverFacts::Member { .. }),
        SymbolKind::Variant { .. } => matches!(facts, HoverFacts::Variant { .. }),
        SymbolKind::Pattern { .. } => matches!(facts, HoverFacts::Pattern { .. }),
        SymbolKind::Field { .. } => matches!(facts, HoverFacts::Field { .. }),
        SymbolKind::Call { .. } => matches!(facts, HoverFacts::Callable { .. }),
        SymbolKind::VariableReference { .. } => matches!(facts, HoverFacts::Variable { .. }),
    }
}

/// The content shown for `symbol`, the entry found under the cursor, given
/// the facts that the type context has of it.
pub fn hover_content_of(symbol: Option<&SymbolEntry>, facts: &HoverFacts) -> (r: String)
    ensures
        r@ == hover_content(symbol, *facts),
{
    let entry = match symbol {
        Some(entry) => entry,
        None => {
            return String::new();
        },
    };
    if !facts_answer(&entry.kind, facts) {
        return String::new();
    }
    match facts {
        HoverFacts::Type { visibility, kind, name } => hover_content_of_type(
            visibility.as_str(),
            *kind,
            name.as_str(),
        ),
        HoverFacts::Callable { visibility, signature } => match &entry.kind {
            SymbolKind::Call { .. } => hover_content_of_call(visibility, signature.as_str()),
            _ => hover_content_of_callable(visibility, signature.as_str()),
        },
        HoverFacts::Member { visibility, name, field_type } => hover_content_of_member(
            visibility.as_str(),
            name.as_str(),
            field_type.as_str(),
        ),
        HoverFacts::Variant { enum_name, case_name, parameters } => hover_content_of_variant(
            enum_name.as_str(),
            case_name.as_str(),
            parameters,
        ),
        HoverFacts::Pattern { type_text } => hover_content_of_pattern(type_text.as_str()),
        HoverFacts::Field { owner, name, field_type } => hover_content_of_field(
            owner.as_str(),
            name.as_str(),
            field_type.as_str(),
        ),
        HoverFacts::Variable { name, type_text } => hover_content_of_variable_ref(
            name.as_str(),
            type_text.as_str(),
        ),
        HoverFacts::Unknown => String::new(),
    }
}

} // verus!
