use komodo_core::terminal::{Terminal, TerminalTarget};
use komodo_core::terminal_order::terminal_order;

fn t(name: &str, target: TerminalTarget) -> Terminal {
    Terminal { name: name.to_string(), target, command: "bash".to_string() }
}

fn s(x: &str) -> String {
    x.to_string()
}

#[test]
fn terminals_by_target_then_name() {
    let terminals = vec![
        t("b", TerminalTarget::Deployment { deployment: s("web") }),
        t("z", TerminalTarget::Server { server: Some(s("a")) }),
        t("a", TerminalTarget::Container { server: s("a"), container: s("db") }),
        t("a", TerminalTarget::Server { server: Some(s("a")) }),
        t("x", TerminalTarget::Server { server: None }),
        t("a", TerminalTarget::Stack { stack: s("st"), service: None }),
        t("a", TerminalTarget::Stack { stack: s("st"), service: Some(s("api")) }),
        t("a", TerminalTarget::Container { server: s("a"), container: s("cache") }),
    ];
    assert_eq!(terminal_order(&terminals), vec![4, 3, 1, 7, 2, 5, 6, 0]);
}

#[test]
fn equal_terminals_keep_their_order() {
    let terminals = vec![
        t("same", TerminalTarget::Deployment { deployment: s("d") }),
        t("same", TerminalTarget::Deployment { deployment: s("d") }),
        t("first", TerminalTarget::Deployment { deployment: s("d") }),
    ];
    assert_eq!(terminal_order(&terminals), vec![2, 0, 1]);
    assert_eq!(terminal_order(&vec![]), Vec::<usize>::new());
}
