use vstd::prelude::*;

verus! {

/// Instruction placed before every prompt unless another one is set.
pub const DEFAULT_SYSTEM_PROMPT: &'static str = "你是一个使用中文作为主要语言的问答助手。";

/// Which model to ask, where it is served, and the instruction that
/// precedes every prompt.
#[derive(Debug, Clone)]
pub struct OllamaAgent {
    model: String,
    host: String,
    port: u16,
    system_prompt: String,
}

/// The text sent to the engine: the instruction, a blank line, the prompt.
pub open spec fn full_prompt_spec(system: Seq<char>, user: Seq<char>) -> Seq<char> {
    system + seq!['\n', '\n'] + user
}

impl OllamaAgent {
    pub closed spec fn model_spec(&self) -> Seq<char> {
        self.model@
    }

    pub closed spec fn host_spec(&self) -> Seq<char> {
        self.host@
    }

    pub closed spec fn port_spec(&self) -> u16 {
        self.port
    }

    pub closed spec fn system_prompt_spec(&self) -> Seq<char> {
        self.system_prompt@
    }

    /// An agent for `model` served at `host`:`port`, with the default
    /// instruction.
    pub fn new(model: &str, host: &str, port: &u16) -> (r: Self)
        ensures
            r.model_spec() == model@,
            r.host_spec() == host@,
            r.port_spec() == *port,
            r.system_prompt_spec() == DEFAULT_SYSTEM_PROMPT@,
    {
        OllamaAgent {
            model: String::from_str(model),
            host: String::from_str(host),
            port: *port,
            system_prompt: String::from_str(DEFAULT_SYSTEM_PROMPT),
        }
    }

    /// The same agent with another instruction.
    pub fn with_system_prompt(self, prompt: &str) -> (r: Self)
        ensures
            r.system_prompt_spec() == prompt@,
            r.model_spec() == self.model_spec(),
            r.host_spec() == self.host_spec(),
            r.port_spec() == self.port_spec(),
    {
        OllamaAgent { system_prompt: String::from_str(prompt), ..self }
    }

    /// The same agent served elsewhere.
    pub fn with_host_port(self, host: &str, port: u16) -> (r: Self)
        ensures
            r.host_spec() == host@,
            r.port_spec() == port,
            r.model_spec() == self.model_spec(),
            r.system_prompt_spec() == self.system_prompt_spec(),
    {
        OllamaAgent { host: String::from_str(host), port, ..self }
    }

    /// The model asked.
    pub fn model(&self) -> (r: &String)
        ensures
            r@ == self.model_spec(),
    {
        &self.model
    }

    /// The server's host.
    pub fn host(&self) -> (r: &String)
        ensures
            r@ == self.host_spec(),
    {
        &self.host
    }

    /// The server's port.
    pub fn port(&self) -> (r: u16)
        ensures
            r == self.port_spec(),
    {
        self.port
    }

    /// The instruction that precedes every prompt.
    pub fn system_prompt(&self) -> (r: &String)
        ensures
            r@ == self.system_prompt_spec(),
    {
        &self.system_prompt
    }

    /// The text to send for `user_prompt`: the instruction, a blank line,
    /// then the prompt.
    pub fn full_prompt(&self, user_prompt: &str) -> (r: String)
        ensures
            r@ == full_prompt_spec(self.system_prompt_spec(), user_prompt@),
    {
        let mut r = self.system_prompt.clone();
        proof {
            reveal_strlit("\n\n");
        }
        r.append("\n\n");
        r.append(user_prompt);
        r
    }
}

} // verus!
