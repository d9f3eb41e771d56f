use lc3_lsp::completion::{
    classify, completion_items, handle_completions, CompletionContext, CompletionItem,
    CompletionItemKind, Position,
};

fn labels(items: &[CompletionItem]) -> Vec<String> {
    items.iter().map(|i| i.label.clone()).collect()
}

fn chars(s: &str) -> Vec<char> {
    s.chars().collect()
}

const OPCODES: [&str; 24] = [
    "ADD", "AND", "BR", "BRn", "BRz", "BRp", "BRnz", "BRnp", "BRzp", "BRnzp", "JMP", "JSR", "JSRR",
    "LD", "LDI", "LDR", "LEA", "NOT", "RET", "RTI", "ST", "STI", "STR", "TRAP",
];
const DIRECTIVES: [&str; 5] = [".ORIG", ".END", ".FILL", ".BLKW", ".STRINGZ"];

fn default_labels() -> Vec<String> {
    OPCODES.iter().chain(DIRECTIVES.iter()).map(|s| s.to_string()).collect()
}

#[test]
fn dot_prefix_gives_directives() {
    for p in [".", "   .ST", "\t.ORIG x3000", ". ADD ", ".TRAP "] {
        assert_eq!(classify(&chars(p)), CompletionContext::Directive, "{p:?}");
    }
    let items = completion_items(CompletionContext::Directive);
    assert_eq!(labels(&items), DIRECTIVES.to_vec());
    assert!(items.iter().all(|i| i.kind == CompletionItemKind::Keyword));
    assert_eq!(items[0].detail.as_deref(), Some("Set program origin address"));
    assert_eq!(items[4].detail.as_deref(), Some("Null-terminated string"));
}

#[test]
fn add_and_prefix_gives_registers() {
    for p in ["ADD ", "  AND ", "LOOP ADD ", "xADD "] {
        assert_eq!(classify(&chars(p)), CompletionContext::RegisterOperand, "{p:?}");
    }
    let items = completion_items(CompletionContext::RegisterOperand);
    assert_eq!(labels(&items), vec!["R0", "R1", "R2", "R3", "R4", "R5", "R6", "R7"]);
    assert!(items.iter().all(|i| i.kind == CompletionItemKind::Variable));
    assert_eq!(items[3].detail.as_deref(), Some("General purpose register 3"));
}

#[test]
fn trap_prefix_gives_trap_vectors() {
    assert_eq!(classify(&chars("  TRAP ")), CompletionContext::TrapOperand);
    let items = completion_items(CompletionContext::TrapOperand);
    assert_eq!(labels(&items), vec!["GETC", "OUT", "PUTS", "IN", "PUTSP", "HALT"]);
    assert!(items.iter().all(|i| i.kind == CompletionItemKind::Constant));
    assert_eq!(items[0].detail.as_deref(), Some("x20 - Read single character (no echo)"));
    assert_eq!(items[5].detail.as_deref(), Some("x25 - Halt program execution"));
}

#[test]
fn other_prefixes_give_opcodes_then_directives() {
    for p in ["", "   ", "ADD", "add ", "Add ", "ADD  ", "TRAP", "LD R0"] {
        assert_eq!(classify(&chars(p)), CompletionContext::Default, "{p:?}");
    }
    let items = completion_items(CompletionContext::Default);
    assert_eq!(items.len(), 29);
    assert_eq!(labels(&items), default_labels());
    assert_eq!(items[9].detail.as_deref(), Some("Branch unconditionally"));
}

#[test]
fn add_r0_comma_at_end_of_line_is_not_a_register_context() {
    // The text before the cursor ends in ", ", not in "ADD ".
    let text = "ADD R0, ";
    let items = handle_completions(text, &Position::new(0, 8));
    assert_eq!(labels(&items), default_labels());
}

#[test]
fn add_with_cursor_after_the_opcode_gives_registers() {
    let items = handle_completions("ADD R0, ", &Position::new(0, 4));
    assert_eq!(labels(&items), vec!["R0", "R1", "R2", "R3", "R4", "R5", "R6", "R7"]);
}

#[test]
fn empty_text_gives_default_list() {
    let items = handle_completions("", &Position::new(0, 0));
    assert_eq!(items.len(), 29);
    assert_eq!(labels(&items), default_labels());
    assert_eq!(items[0].label, "ADD");
}

#[test]
fn partial_directive_gives_directives() {
    let items = handle_completions(".ST", &Position::new(0, 3));
    assert_eq!(labels(&items), DIRECTIVES.to_vec());
}

#[test]
fn cursor_selects_line_and_column() {
    let text = "LD R1, X\r\n  TRAP x25\nADD ";
    assert_eq!(labels(&handle_completions(text, &Position::new(1, 7))).len(), 6);
    assert_eq!(handle_completions(text, &Position::new(1, 6)).len(), 29);
    assert_eq!(handle_completions(text, &Position::new(2, 4)).len(), 8);
    // A column past the end of the line stands for the end of the line.
    assert_eq!(handle_completions(text, &Position::new(2, 99)).len(), 8);
    // A line past the end of the text is empty.
    assert_eq!(handle_completions(text, &Position::new(7, 0)).len(), 29);
}

#[test]
fn column_counts_utf16_units() {
    // U+1D11E takes two UTF-16 units and four bytes.
    let text = "\u{1D11E}TRAP ";
    assert_eq!(handle_completions(text, &Position::new(0, 7)).len(), 6);
    assert_eq!(handle_completions(text, &Position::new(0, 6)).len(), 29);
    let text = "\u{3000}\u{1D11E}";
    assert_eq!(handle_completions(text, &Position::new(0, 3)).len(), 29);
    let text = "\u{3000}.ORIG";
    assert_eq!(handle_completions(text, &Position::new(0, 2)).len(), 5);
    let text = "é TRAP ";
    assert_eq!(handle_completions(text, &Position::new(0, 7)).len(), 6);
}

#[test]
fn unicode_white_space_is_trimmed() {
    assert_eq!(classify(&chars("\u{A0}\u{2003}.END")), CompletionContext::Directive);
    assert_eq!(classify(&chars("\u{200B}.END")), CompletionContext::Default);
}

#[test]
fn items_are_equal_by_label() {
    let a = CompletionItem {
        label: "R1".to_string(),
        kind: CompletionItemKind::Variable,
        detail: None,
    };
    let b = CompletionItem {
        label: "R1".to_string(),
        kind: CompletionItemKind::Keyword,
        detail: Some("other".to_string()),
    };
    let c = CompletionItem { label: "R2".to_string(), ..a.clone() };
    assert_eq!(a, b);
    assert_ne!(a, c);
}
