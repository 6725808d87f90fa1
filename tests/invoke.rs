use local_llm::{
    build_args, chat_prompt, collect_lines, complete, decimal, Completion, InvokeError,
    InvokerConfig, OutputCollector,
};

#[test]
fn decimal_values() {
    assert_eq!(decimal(0), "0");
    assert_eq!(decimal(7), "7");
    assert_eq!(decimal(28), "28");
    assert_eq!(decimal(1000), "1000");
    assert_eq!(decimal(u32::MAX), "4294967295");
}

#[test]
fn chat_prompt_wraps_prompt() {
    assert_eq!(
        chat_prompt("hello"),
        "<|im_start|>user\nhello<|im_end|>\n<|im_start|>assistant\n"
    );
    assert_eq!(chat_prompt(""), "<|im_start|>user\n<|im_end|>\n<|im_start|>assistant\n");
}

#[test]
fn standard_args() {
    let config = InvokerConfig::standard();
    assert_eq!(config.executable, "./binaries/llama-cli-aarch64-apple-darwin");
    let args = build_args(&config, "Why is the sky blue?");
    let expected = vec![
        "-m",
        "models/model.gguf",
        "-p",
        "<|im_start|>user\nWhy is the sky blue?<|im_end|>\n<|im_start|>assistant\n",
        "-n",
        "1000",
        "--reverse-prompt",
        "<|im_end|>",
        "-ngl",
        "28",
        "-fa",
        "-e",
    ];
    assert_eq!(args, expected);
}

#[test]
fn custom_config_args() {
    let config = InvokerConfig {
        executable: "stub".to_string(),
        model_file: "m.gguf".to_string(),
        max_tokens: 5,
        stop_sequence: "STOP".to_string(),
        gpu_layers: 0,
    };
    let args = build_args(&config, "p");
    assert_eq!(args[1], "m.gguf");
    assert_eq!(args[5], "5");
    assert_eq!(args[7], "STOP");
    assert_eq!(args[9], "0");
}

#[test]
fn buffered_lines_reassembled() {
    let lines = vec!["line1".to_string(), "line2".to_string()];
    let text = collect_lines(&lines);
    assert_eq!(text, "line1\nline2\n");
    match complete(false, true, text) {
        Ok(Completion::Buffered { text }) => assert_eq!(text, "line1\nline2\n"),
        _ => panic!("expected buffered success"),
    }
}

#[test]
fn collector_keeps_empty_lines() {
    let mut c = OutputCollector::new();
    c.push_line("a");
    c.push_line("");
    c.push_line("b");
    assert_eq!(c.into_text(), "a\n\nb\n");
    assert_eq!(collect_lines(&Vec::new()), "");
}

#[test]
fn streamed_success() {
    assert!(matches!(complete(true, true, String::new()), Ok(Completion::Streamed)));
}

#[test]
fn nonzero_exit_is_process_failure_in_both_modes() {
    match complete(false, false, "partial\n".to_string()) {
        Err(InvokeError::ProcessFailed { output }) => assert_eq!(output, "partial\n"),
        _ => panic!("expected process failure"),
    }
    match complete(true, false, String::new()) {
        Err(InvokeError::ProcessFailed { output }) => assert_eq!(output, ""),
        _ => panic!("expected process failure"),
    }
}

#[test]
fn invoke_error_messages() {
    assert_eq!(InvokeError::Spawn.message(), "could not start the inference executable");
    assert_eq!(
        InvokeError::Io.message(),
        "could not read the output of the inference executable"
    );
    assert_eq!(
        InvokeError::ProcessFailed { output: String::new() }.message(),
        "the inference process failed"
    );
}
