use onnx_circuit::cli::{Cli, ModelPath};

#[test]
fn path_from_the_command_line() {
    let cli = Cli { data: "input.json".to_string(), model: "net.onnx".to_string() };
    assert_eq!(cli.model_path(), ModelPath::Given("net.onnx".to_string()));
}

#[test]
fn path_to_be_asked_for() {
    let cli = Cli { data: "input.json".to_string(), model: String::new() };
    assert_eq!(cli.model_path(), ModelPath::Asked);
}

#[test]
fn entered_line_loses_its_end() {
    assert_eq!(Cli::entered_path("net.onnx\n"), Some("net.onnx".to_string()));
    assert_eq!(Cli::entered_path("\n"), Some(String::new()));
    assert_eq!(Cli::entered_path("modèle.onnx\n"), Some("modèle.onnx".to_string()));
    assert_eq!(Cli::entered_path("abc"), Some("ab".to_string()));
    assert_eq!(Cli::entered_path("é"), Some(String::new()));
    assert_eq!(Cli::entered_path(""), None);
}
