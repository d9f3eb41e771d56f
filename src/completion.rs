//! The completion-context classifier: from the text before the cursor to the
//! fixed completion set that applies there.

use crate::text::{
    chars_of, digit, digit_text, ends_with, has_suffix, is_white_space, lemma_trim_keeps_suffix,
    line_at, line_of, prefix_in_units, starts_with_char, trim_start, trimmed_start, utf16_prefix,
};
use vstd::prelude::*;
use vstd::string::StringExecFns;

verus! {

/// The category of a completion item.
#[derive(Clone, Copy, Debug, PartialEq, Eq, Structural)]
pub enum CompletionItemKind {
    Keyword,
    Variable,
    Constant,
    Function,
}

/// A suggestion offered to the editor. Two items are equal when their labels
/// are.
#[derive(Clone, Debug)]
pub struct CompletionItem {
    pub label: String,
    pub kind: CompletionItemKind,
    pub detail: Option<String>,
}

impl PartialEq for CompletionItem {
    fn eq(&self, other: &CompletionItem) -> (r: bool) {
        self.label == other.label
    }
}

impl vstd::std_specs::cmp::PartialEqSpecImpl for CompletionItem {
    open spec fn obeys_eq_spec() -> bool {
        true
    }

    open spec fn eq_spec(&self, other: &CompletionItem) -> bool {
        self.label@ == other.label@
    }
}

/// The mathematical content of a [`CompletionItem`].
pub struct ItemView {
    pub label: Seq<char>,
    pub kind: CompletionItemKind,
    pub detail: Option<Seq<char>>,
}

impl View for CompletionItem {
    type V = ItemView;

    open spec fn view(&self) -> ItemView {
        ItemView {
            label: self.label@,
            kind: self.kind,
            detail: match self.detail {
                Some(d) => Some(d@),
                None => None,
            },
        }
    }
}

/// A cursor: a zero-based line and a column counted in UTF-16 code units.
#[derive(Clone, Copy, Debug, PartialEq, Eq, Structural)]
pub struct Position {
    pub line: u32,
    pub character: u32,
}

impl Position {
    pub fn new(line: u32, character: u32) -> (r: Position)
        ensures
            r.line == line,
            r.character == character,
    {
        Position { line, character }
    }
}

/// Which completion set applies at the cursor.
#[derive(Clone, Copy, Debug, PartialEq, Eq, Structural)]
pub enum CompletionContext {
    Directive,
    RegisterOperand,
    TrapOperand,
    Default,
}

/// The views of a list of items.
pub open spec fn views(items: Seq<CompletionItem>) -> Seq<ItemView> {
    items.map_values(|c: CompletionItem| c@)
}

pub open spec fn item(label: Seq<char>, kind: CompletionItemKind, detail: Seq<char>) -> ItemView {
    ItemView { label, kind, detail: Some(detail) }
}

/// The opcode set, every branch variant included.
pub open spec fn opcode_items() -> Seq<ItemView> {
    let k = CompletionItemKind::Keyword;
    seq![
        item("ADD"@, k, "Add two values"@),
        item("AND"@, k, "Bitwise AND"@),
        item("BR"@, k, "Branch unconditionally"@),
        item("BRn"@, k, "Branch if negative"@),
        item("BRz"@, k, "Branch if zero"@),
        item("BRp"@, k, "Branch if positive"@),
        item("BRnz"@, k, "Branch if negative or zero"@),
        item("BRnp"@, k, "Branch if negative or positive"@),
        item("BRzp"@, k, "Branch if zero or positive"@),
        item("BRnzp"@, k, "Branch unconditionally"@),
        item("JMP"@, k, "Jump to address"@),
        item("JSR"@, k, "Jump to subroutine"@),
        item("JSRR"@, k, "Jump to subroutine (register)"@),
        item("LD"@, k, "Load from PC-relative address"@),
        item("LDI"@, k, "Load indirect"@),
        item("LDR"@, k, "Load base+offset"@),
        item("LEA"@, k, "Load effective address"@),
        item("NOT"@, k, "Bitwise NOT"@),
        item("RET"@, k, "Return from subroutine"@),
        item("RTI"@, k, "Return from interrupt"@),
        item("ST"@, k, "Store to PC-relative address"@),
        item("STI"@, k, "Store indirect"@),
        item("STR"@, k, "Store base+offset"@),
        item("TRAP"@, k, "System call"@),
    ]
}

/// The assembler directives.
pub open spec fn directive_items() -> Seq<ItemView> {
    let k = CompletionItemKind::Keyword;
    seq![
        item(".ORIG"@, k, "Set program origin address"@),
        item(".END"@, k, "End of program"@),
        item(".FILL"@, k, "Fill memory location with value"@),
        item(".BLKW"@, k, "Allocate block of words"@),
        item(".STRINGZ"@, k, "Null-terminated string"@),
    ]
}

/// General-purpose register `i`.
pub open spec fn register_item(i: int) -> ItemView {
    item("R"@ + digit(i), CompletionItemKind::Variable, "General purpose register "@ + digit(i))
}

/// The eight general-purpose registers, `R0` to `R7`.
pub open spec fn register_items() -> Seq<ItemView> {
    Seq::new(8, |i: int| register_item(i))
}

/// A trap vector: its name, and its code and description as detail.
pub open spec fn trap_item(name: Seq<char>, code: Seq<char>, desc: Seq<char>) -> ItemView {
    item(name, CompletionItemKind::Constant, code + " - "@ + desc)
}

/// The trap vectors.
pub open spec fn trap_items() -> Seq<ItemView> {
    seq![
        trap_item("GETC"@, "x20"@, "Read single character (no echo)"@),
        trap_item("OUT"@, "x21"@, "Output character in R0"@),
        trap_item("PUTS"@, "x22"@, "Output null-terminated string"@),
        trap_item("IN"@, "x23"@, "Read character with echo and prompt"@),
        trap_item("PUTSP"@, "x24"@, "Output packed string"@),
        trap_item("HALT"@, "x25"@, "Halt program execution"@),
    ]
}

/// The context named by the text before the cursor; the first rule that
/// matches wins.
pub open spec fn context_of(prefix: Seq<char>) -> CompletionContext {
    let t = trim_start(prefix);
    if starts_with_char(t, '.') {
        CompletionContext::Directive
    } else if ends_with(t, "ADD "@) || ends_with(t, "AND "@) {
        CompletionContext::RegisterOperand
    } else if ends_with(t, "TRAP "@) {
        CompletionContext::TrapOperand
    } else {
        CompletionContext::Default
    }
}

/// The completion set of a context.
pub open spec fn items_for(ctx: CompletionContext) -> Seq<ItemView> {
    match ctx {
        CompletionContext::Directive => directive_items(),
        CompletionContext::RegisterOperand => register_items(),
        CompletionContext::TrapOperand => trap_items(),
        CompletionContext::Default => opcode_items() + directive_items(),
    }
}

/// The text of the cursor's line that stands before the cursor.
pub open spec fn cursor_prefix(text: Seq<char>, pos: Position) -> Seq<char> {
    utf16_prefix(line_at(text, pos.line as nat), pos.character as int)
}

/// What completion offers at `pos` in `text`.
pub open spec fn completions(text: Seq<char>, pos: Position) -> Seq<ItemView> {
    items_for(context_of(cursor_prefix(text, pos)))
}

fn make_item(label: &str, kind: CompletionItemKind, detail: String) -> (r: CompletionItem)
    ensures
        r@ == item(label@, kind, detail@),
{
    CompletionItem { label: String::from_str(label), kind, detail: Some(detail) }
}

fn keyword(label: &str, detail: &str) -> (r: CompletionItem)
    ensures
        r@ == item(label@, CompletionItemKind::Keyword, detail@),
{
    make_item(label, CompletionItemKind::Keyword, String::from_str(detail))
}

/// The opcode completions.
pub fn opcode_completions() -> (r: Vec<CompletionItem>)
    ensures
        views(r@) == opcode_items(),
{
    let mut v: Vec<CompletionItem> = Vec::new();
    v.push(keyword("ADD", "Add two values"));
    v.push(keyword("AND", "Bitwise AND"));
    v.push(keyword("BR", "Branch unconditionally"));
    v.push(keyword("BRn", "Branch if negative"));
    v.push(keyword("BRz", "Branch if zero"));
    v.push(keyword("BRp", "Branch if positive"));
    v.push(keyword("BRnz", "Branch if negative or zero"));
    v.push(keyword("BRnp", "Branch if negative or positive"));
    v.push(keyword("BRzp", "Branch if zero or positive"));
    v.push(keyword("BRnzp", "Branch unconditionally"));
    v.push(keyword("JMP", "Jump to address"));
    v.push(keyword("JSR", "Jump to subroutine"));
    v.push(keyword("JSRR", "Jump to subroutine (register)"));
    v.push(keyword("LD", "Load from PC-relative address"));
    v.push(keyword("LDI", "Load indirect"));
    v.push(keyword("LDR", "Load base+offset"));
    v.push(keyword("LEA", "Load effective address"));
    v.push(keyword("NOT", "Bitwise NOT"));
    v.push(keyword("RET", "Return from subroutine"));
    v.push(keyword("RTI", "Return from interrupt"));
    v.push(keyword("ST", "Store to PC-relative address"));
    v.push(keyword("STI", "Store indirect"));
    v.push(keyword("STR", "Store base+offset"));
    v.push(keyword("TRAP", "System call"));
    assert(views(v@) =~= opcode_items());
    v
}

/// The directive completions.
pub fn directive_completions() -> (r: Vec<CompletionItem>)
    ensures
        views(r@) == directive_items(),
{
    let mut v: Vec<CompletionItem> = Vec::new();
    v.push(keyword(".ORIG", "Set program origin address"));
    v.push(keyword(".END", "End of program"));
    v.push(keyword(".FILL", "Fill memory location with value"));
    v.push(keyword(".BLKW", "Allocate block of words"));
    v.push(keyword(".STRINGZ", "Null-terminated string"));
    assert(views(v@) =~= directive_items());
    v
}

/// The register completions.
pub fn register_completions() -> (r: Vec<CompletionItem>)
    ensures
        views(r@) == register_items(),
{
    let mut v: Vec<CompletionItem> = Vec::new();
    let mut i: u32 = 0;
    while i < 8
        invariant
            i <= 8,
            views(v@) == register_items().take(i as int),
        decreases 8 - i,
    {
        let d = digit_text(i as u16);
        let label = String::from_str("R").concat(d);
        let detail = String::from_str("General purpose register ").concat(d);
        let it = CompletionItem { label, kind: CompletionItemKind::Variable, detail: Some(detail) };
        assert(it@ == register_item(i as int));
        let ghost before = v@;
        v.push(it);
        assert(views(v@) =~= views(before).push(register_item(i as int)));
        assert(views(v@) =~= register_items().take(i + 1));
        i = i + 1;
    }
    assert(register_items().take(8) =~= register_items());
    v
}

fn trap(name: &str, code: &str, desc: &str) -> (r: CompletionItem)
    ensures
        r@ == trap_item(name@, code@, desc@),
{
    let detail = String::from_str(code).concat(" - ").concat(desc);
    make_item(name, CompletionItemKind::Constant, detail)
}

/// The trap-vector completions.
pub fn trap_completions() -> (r: Vec<CompletionItem>)
    ensures
        views(r@) == trap_items(),
{
    let mut v: Vec<CompletionItem> = Vec::new();
    v.push(trap("GETC", "x20", "Read single character (no echo)"));
    v.push(trap("OUT", "x21", "Output character in R0"));
    v.push(trap("PUTS", "x22", "Output null-terminated string"));
    v.push(trap("IN", "x23", "Read character with echo and prompt"));
    v.push(trap("PUTSP", "x24", "Output packed string"));
    v.push(trap("HALT", "x25", "Halt program execution"));
    assert(views(v@) =~= trap_items());
    v
}

/// The completion set of `ctx`.
pub fn completion_items(ctx: CompletionContext) -> (r: Vec<CompletionItem>)
    ensures
        views(r@) == items_for(ctx),
{
    match ctx {
        CompletionContext::Directive => directive_completions(),
        CompletionContext::RegisterOperand => register_completions(),
        CompletionContext::TrapOperand => trap_completions(),
        CompletionContext::Default => {
            let mut v = opcode_completions();
            let mut d = directive_completions();
            let ghost a = v@;
            let ghost b = d@;
            v.append(&mut d);
            assert(views(v@) =~= views(a) + views(b));
            v
        },
    }
}

/// Classifies the text before the cursor.
pub fn classify(prefix: &Vec<char>) -> (c: CompletionContext)
    ensures
        c == context_of(prefix@),
{
    let t = trimmed_start(prefix);
    if t.len() > 0 && t[0] == '.' {
        CompletionContext::Directive
    } else if has_suffix(t.as_slice(), chars_of("ADD ").as_slice()) || has_suffix(
        t.as_slice(),
        chars_of("AND ").as_slice(),
    ) {
        CompletionContext::RegisterOperand
    } else if has_suffix(t.as_slice(), chars_of("TRAP ").as_slice()) {
        CompletionContext::TrapOperand
    } else {
        CompletionContext::Default
    }
}

/// The completion list for the cursor `pos` in `text`. A line past the end
/// of the text counts as empty, and a column past the end of its line as the
/// end of the line.
pub fn handle_completions(text: &str, pos: &Position) -> (r: Vec<CompletionItem>)
    ensures
        views(r@) == completions(text@, *pos),
{
    let chars = chars_of(text);
    let line = line_of(&chars, pos.line);
    let prefix = prefix_in_units(&line, pos.character);
    completion_items(classify(&prefix))
}

/// Trimming leading white space does not change whether a text ends with one
/// of the opcode markers, as none of them begins with white space.
proof fn lemma_ends_with_trim_start(p: Seq<char>, m: Seq<char>)
    requires
        m == "ADD "@ || m == "AND "@ || m == "TRAP "@,
    ensures
        ends_with(trim_start(p), m) == ends_with(p, m),
{
    reveal_strlit("ADD ");
    reveal_strlit("AND ");
    reveal_strlit("TRAP ");
    assert(m.len() > 0 && !is_white_space(m[0]));
    lemma_trim_keeps_suffix(p, m);
}

/// A prefix whose first non-blank character is a dot asks for the five
/// directives, in their declared order.
pub proof fn law_directive_prefix(p: Seq<char>)
    requires
        starts_with_char(trim_start(p), '.'),
    ensures
        context_of(p) == CompletionContext::Directive,
        items_for(context_of(p)) == directive_items(),
        directive_items().len() == 5,
        directive_items().map_values(|i: ItemView| i.label) == seq![
            ".ORIG"@,
            ".END"@,
            ".FILL"@,
            ".BLKW"@,
            ".STRINGZ"@,
        ],
{
    assert(directive_items().map_values(|i: ItemView| i.label) =~= seq![
        ".ORIG"@,
        ".END"@,
        ".FILL"@,
        ".BLKW"@,
        ".STRINGZ"@,
    ]);
}

/// A prefix ending in `ADD ` or `AND ` asks for exactly the registers `R0` to
/// `R7`, all of kind Variable, unless a leading dot makes it a directive.
pub proof fn law_register_prefix(p: Seq<char>)
    requires
        ends_with(p, "ADD "@) || ends_with(p, "AND "@),
        !starts_with_char(trim_start(p), '.'),
    ensures
        context_of(p) == CompletionContext::RegisterOperand,
        items_for(context_of(p)) == register_items(),
        register_items().len() == 8,
        forall|i: int|
            0 <= i < 8 ==> {
                &&& (#[trigger] register_items()[i]).kind == CompletionItemKind::Variable
                &&& register_items()[i].label == "R"@ + digit(i)
            },
{
    lemma_ends_with_trim_start(p, "ADD "@);
    lemma_ends_with_trim_start(p, "AND "@);
    assert forall|i: int| 0 <= i < 8 implies (#[trigger] register_items()[i]).kind
        == CompletionItemKind::Variable && register_items()[i].label == "R"@ + digit(i) by {}
}

/// A prefix ending in `TRAP ` asks for exactly the six trap vectors, unless a
/// leading dot makes it a directive.
pub proof fn law_trap_prefix(p: Seq<char>)
    requires
        ends_with(p, "TRAP "@),
        !starts_with_char(trim_start(p), '.'),
    ensures
        context_of(p) == CompletionContext::TrapOperand,
        items_for(context_of(p)) == trap_items(),
        trap_items().len() == 6,
{
    reveal_strlit("TRAP ");
    reveal_strlit("ADD ");
    reveal_strlit("AND ");
    lemma_ends_with_trim_start(p, "TRAP "@);
    let t = trim_start(p);
    assert(t[t.len() - 4] == 'R') by {
        assert(t.skip(t.len() - 5)[1] == "TRAP "@[1]);
    }
    if ends_with(t, "ADD "@) || ends_with(t, "AND "@) {
        assert(t.skip(t.len() - 4)[0] == 'A');
    }
}

/// Any other prefix asks for the 24 opcodes followed by the five directives.
pub proof fn law_default_prefix(p: Seq<char>)
    requires
        !starts_with_char(trim_start(p), '.'),
        !ends_with(p, "ADD "@),
        !ends_with(p, "AND "@),
        !ends_with(p, "TRAP "@),
    ensures
        context_of(p) == CompletionContext::Default,
        items_for(context_of(p)) == opcode_items() + directive_items(),
        opcode_items().len() == 24,
        items_for(context_of(p)).len() == 29,
        items_for(context_of(p)).take(24) == opcode_items(),
{
    lemma_ends_with_trim_start(p, "ADD "@);
    lemma_ends_with_trim_start(p, "AND "@);
    lemma_ends_with_trim_start(p, "TRAP "@);
    assert((opcode_items() + directive_items()).take(24) =~= opcode_items());
}

} // verus!
