use vstd::prelude::*;

verus! {

/// The decimal digit for `d < 10`.
pub open spec fn digit_char(d: nat) -> char {
    if d == 0 {
        '0'
    } else if d == 1 {
        '1'
    } else if d == 2 {
        '2'
    } else if d == 3 {
        '3'
    } else if d == 4 {
        '4'
    } else if d == 5 {
        '5'
    } else if d == 6 {
        '6'
    } else if d == 7 {
        '7'
    } else if d == 8 {
        '8'
    } else {
        '9'
    }
}

/// The decimal notation of `n`, without leading zeros.
pub open spec fn decimal_spec(n: nat) -> Seq<char>
    decreases n,
{
    if n < 10 {
        seq![digit_char(n)]
    } else {
        decimal_spec(n / 10) + seq![digit_char(n % 10)]
    }
}

fn digit_str(d: u32) -> (r: &'static str)
    requires
        d < 10,
    ensures
        r@ == seq![digit_char(d as nat)],
{
    proof {
        reveal_strlit("0");
        reveal_strlit("1");
        reveal_strlit("2");
        reveal_strlit("3");
        reveal_strlit("4");
        reveal_strlit("5");
        reveal_strlit("6");
        reveal_strlit("7");
        reveal_strlit("8");
        reveal_strlit("9");
    }
    let r = if d == 0 {
        "0"
    } else if d == 1 {
        "1"
    } else if d == 2 {
        "2"
    } else if d == 3 {
        "3"
    } else if d == 4 {
        "4"
    } else if d == 5 {
        "5"
    } else if d == 6 {
        "6"
    } else if d == 7 {
        "7"
    } else if d == 8 {
        "8"
    } else {
        "9"
    };
    assert(r@ =~= seq![digit_char(d as nat)]);
    r
}

fn push_decimal(n: u32, out: &mut String)
    ensures
        final(out)@ == old(out)@ + decimal_spec(n as nat),
    decreases n,
{
    if n < 10 {
        out.append(digit_str(n));
    } else {
        push_decimal(n / 10, out);
        out.append(digit_str(n % 10));
        assert(final(out)@ =~= old(out)@ + decimal_spec(n as nat));
    }
}

/// The decimal notation of `n`.
pub fn decimal(n: u32) -> (r: String)
    ensures
        r@ == decimal_spec(n as nat),
{
    let mut r = String::new();
    push_decimal(n, &mut r);
    assert(r@ =~= decimal_spec(n as nat));
    r
}

/// The opening of the user's turn in the chat template.
pub open spec fn user_turn_open() -> Seq<char> {
    "<|im_start|>user\n"@
}

/// The close of the user's turn and the opening of the assistant's.
pub open spec fn assistant_turn_open() -> Seq<char> {
    "<|im_end|>\n<|im_start|>assistant\n"@
}

/// The prompt wrapped in the chat-turn template.
pub open spec fn chat_prompt_spec(prompt: Seq<char>) -> Seq<char> {
    user_turn_open() + prompt + assistant_turn_open()
}

/// Wraps a user prompt in the chat-turn template the model expects.
pub fn chat_prompt(prompt: &str) -> (r: String)
    ensures
        r@ == chat_prompt_spec(prompt@),
{
    let mut r = String::from_str("<|im_start|>user\n");
    r.append(prompt);
    r.append("<|im_end|>\n<|im_start|>assistant\n");
    r
}

/// How the inference executable is run: where it is, which model it loads
/// and the fixed generation settings.
pub struct InvokerConfig {
    /// Path of the inference executable.
    pub executable: String,
    /// Path of the model file handed to it.
    pub model_file: String,
    /// Largest number of tokens to generate.
    pub max_tokens: u32,
    /// Text at which generation stops.
    pub stop_sequence: String,
    /// Number of layers offloaded to the GPU.
    pub gpu_layers: u32,
}

impl InvokerConfig {
    /// The settings the assistant ships with.
    pub fn standard() -> (r: InvokerConfig)
        ensures
            r.executable@ == "./binaries/llama-cli-aarch64-apple-darwin"@,
            r.model_file@ == "models/model.gguf"@,
            r.max_tokens == 1000,
            r.stop_sequence@ == "<|im_end|>"@,
            r.gpu_layers == 28,
    {
        InvokerConfig {
            executable: String::from_str("./binaries/llama-cli-aarch64-apple-darwin"),
            model_file: String::from_str("models/model.gguf"),
            max_tokens: 1000,
            stop_sequence: String::from_str("<|im_end|>"),
            gpu_layers: 28,
        }
    }
}

/// The argument vector for one prompt: model file, templated prompt,
/// generation length, stop sequence, GPU layers, flash attention and
/// end-of-text handling.
pub open spec fn args_spec(config: InvokerConfig, prompt: Seq<char>) -> Seq<Seq<char>> {
    seq![
        "-m"@,
        config.model_file@,
        "-p"@,
        chat_prompt_spec(prompt),
        "-n"@,
        decimal_spec(config.max_tokens as nat),
        "--reverse-prompt"@,
        config.stop_sequence@,
        "-ngl"@,
        decimal_spec(config.gpu_layers as nat),
        "-fa"@,
        "-e"@,
    ]
}

/// Builds the arguments the inference executable is started with.
pub fn build_args(config: &InvokerConfig, prompt: &str) -> (r: Vec<String>)
    ensures
        r@.map_values(|a: String| a@) == args_spec(*config, prompt@),
{
    let mut r: Vec<String> = Vec::new();
    r.push(String::from_str("-m"));
    r.push(config.model_file.clone());
    r.push(String::from_str("-p"));
    r.push(chat_prompt(prompt));
    r.push(String::from_str("-n"));
    r.push(decimal(config.max_tokens));
    r.push(String::from_str("--reverse-prompt"));
    r.push(config.stop_sequence.clone());
    r.push(String::from_str("-ngl"));
    r.push(decimal(config.gpu_layers));
    r.push(String::from_str("-fa"));
    r.push(String::from_str("-e"));
    assert(r@.map_values(|a: String| a@) =~= args_spec(*config, prompt@));
    r
}

/// Lines joined back into text, each followed by a newline.
pub open spec fn joined_lines(lines: Seq<Seq<char>>) -> Seq<char>
    decreases lines.len(),
{
    if lines.len() == 0 {
        Seq::empty()
    } else {
        joined_lines(lines.drop_last()) + lines.last() + seq!['\n']
    }
}

/// Output of a buffered invocation, assembled line by line as the process
/// writes it.
pub struct OutputCollector {
    pub text: String,
}

impl OutputCollector {
    /// A collector that has seen no line yet.
    pub fn new() -> (r: OutputCollector)
        ensures
            r.text@ == Seq::<char>::empty(),
    {
        OutputCollector { text: String::new() }
    }

    /// Appends one line, without its terminator, and a newline after it.
    pub fn push_line(&mut self, line: &str)
        ensures
            final(self).text@ == old(self).text@ + line@ + seq!['\n'],
    {
        proof {
            reveal_strlit("\n");
        }
        self.text.append(line);
        self.text.append("\n");
    }

    /// The text assembled so far.
    pub fn into_text(self) -> (r: String)
        ensures
            r@ == self.text@,
    {
        self.text
    }
}

/// Joins lines read from the process into one text, each line followed by
/// a newline.
pub fn collect_lines(lines: &Vec<String>) -> (r: String)
    ensures
        r@ == joined_lines(lines@.map_values(|l: String| l@)),
{
    let mut c = OutputCollector::new();
    let mut i: usize = 0;
    while i < lines.len()
        invariant
            i <= lines@.len(),
            c.text@ == joined_lines(lines@.subrange(0, i as int).map_values(|l: String| l@)),
        decreases lines@.len() - i,
    {
        let ghost before = lines@.subrange(0, i as int).map_values(|l: String| l@);
        c.push_line(lines[i].as_str());
        proof {
            let after = lines@.subrange(0, i + 1).map_values(|l: String| l@);
            assert(after.drop_last() =~= before);
            assert(after.last() == lines@[i as int]@);
        }
        i = i + 1;
    }
    assert(lines@.subrange(0, lines@.len() as int) =~= lines@);
    c.into_text()
}

/// Why an invocation did not deliver a result.
#[derive(Clone, Debug)]
pub enum InvokeError {
    /// The executable could not be started: missing or not executable.
    Spawn,
    /// Reading the process's output, or waiting for it, failed.
    Io,
    /// The process ran and reported failure. In buffered mode `output` holds
    /// what it wrote before exiting; in streaming mode the caller has already
    /// received that output and `output` is empty.
    ProcessFailed { output: String },
}

impl InvokeError {
    /// A message for the user.
    pub fn message(&self) -> (r: String)
        ensures
            r@ == match *self {
                InvokeError::Spawn => "could not start the inference executable"@,
                InvokeError::Io => "could not read the output of the inference executable"@,
                InvokeError::ProcessFailed { .. } => "the inference process failed"@,
            },
    {
        match self {
            InvokeError::Spawn => String::from_str("could not start the inference executable"),
            InvokeError::Io => String::from_str("could not read the output of the inference executable"),
            InvokeError::ProcessFailed { .. } => String::from_str("the inference process failed"),
        }
    }
}

/// What a successful invocation delivers.
#[derive(Clone, Debug)]
pub enum Completion {
    /// Buffered mode: all output, assembled.
    Buffered { text: String },
    /// Streaming mode: the output has already been handed to the caller.
    Streamed,
}

/// Turns the exit status of the inference process into the invocation's
/// result. A process that reports failure gives `ProcessFailed` in either
/// mode, never the error of a failed read.
pub fn complete(stream_mode: bool, exit_success: bool, output: String) -> (r: Result<
    Completion,
    InvokeError,
>)
    ensures
        exit_success && !stream_mode ==> (r matches Ok(Completion::Buffered { text })
            && text@ == output@),
        exit_success && stream_mode ==> r matches Ok(Completion::Streamed),
        !exit_success && !stream_mode ==> (r matches Err(
            InvokeError::ProcessFailed { output: o },
        ) && o@ == output@),
        !exit_success && stream_mode ==> (r matches Err(
            InvokeError::ProcessFailed { output: o },
        ) && o@ == Seq::<char>::empty()),
{
    if exit_success {
        if stream_mode {
            Ok(Completion::Streamed)
        } else {
            Ok(Completion::Buffered { text: output })
        }
    } else {
        if stream_mode {
            Err(InvokeError::ProcessFailed { output: String::new() })
        } else {
            Err(InvokeError::ProcessFailed { output })
        }
    }
}

} // verus!
