use vstd::prelude::*;
use vstd::string::*;

verus! {

/// Port used when the one given cannot be read.
pub const DEFAULT_OLLAMA_PORT: u16 = 11434;

/// Connection settings of one generation server.
#[derive(Debug, Clone)]
pub struct OllamaSetting {
    pub port: u16,
    pub model: String,
    pub host: String,
    pub prompt: String,
}

/// Settings edited from the UI.
#[derive(Debug, Default)]
pub struct AppConfig {
    pub font: String,
    pub log_level: String,
    pub ollama_setting: Vec<OllamaSetting>,
}

/// Whether `c` is an ASCII decimal digit.
pub open spec fn is_digit(c: char) -> bool {
    '0' <= c && c <= '9'
}

/// The value of a run of decimal digits.
pub open spec fn digits_value(s: Seq<char>) -> int
    decreases s.len(),
{
    if s.len() == 0 {
        0
    } else {
        digits_value(s.drop_last()) * 10 + (s.last() as int - '0' as int)
    }
}

/// The digits of a number in text: all of it, or what follows a leading `+`.
pub open spec fn unsigned_digits(s: Seq<char>) -> Seq<char> {
    if s.len() > 0 && s[0] == '+' {
        s.subrange(1, s.len() as int)
    } else {
        s
    }
}

/// How a `u16` reads from text: an optional `+`, then one or more decimal
/// digits whose value fits.
pub open spec fn parse_u16_spec(s: Seq<char>) -> Option<u16> {
    let d = unsigned_digits(s);
    if d.len() > 0 && (forall|i: int| 0 <= i < d.len() ==> is_digit(#[trigger] d[i])) && digits_value(d)
        <= u16::MAX {
        Some(digits_value(d) as u16)
    } else {
        None
    }
}

proof fn lemma_digits_value_nonneg(s: Seq<char>)
    requires
        forall|i: int| 0 <= i < s.len() ==> is_digit(#[trigger] s[i]),
    ensures
        digits_value(s) >= 0,
    decreases s.len(),
{
    if s.len() > 0 {
        lemma_digits_value_nonneg(s.drop_last());
    }
}

proof fn lemma_digits_value_grows(s: Seq<char>, i: int)
    requires
        0 <= i <= s.len(),
        forall|k: int| 0 <= k < s.len() ==> is_digit(#[trigger] s[k]),
    ensures
        digits_value(s.subrange(0, i)) <= digits_value(s),
    decreases s.len() - i,
{
    if i < s.len() {
        lemma_digits_value_grows(s, i + 1);
        let t = s.subrange(0, i + 1);
        assert(t.drop_last() == s.subrange(0, i));
        lemma_digits_value_nonneg(s.subrange(0, i));
    } else {
        assert(s.subrange(0, i) == s);
    }
}

/// Reads a port number from text as `str::parse::<u16>` does.
pub fn parse_port(s: &str) -> (r: Option<u16>)
    ensures
        r == parse_u16_spec(s@),
{
    let n = s.unicode_len();
    let mut start: usize = 0;
    if n > 0 && s.get_char(0) == '+' {
        start = 1;
    }
    let ghost d = unsigned_digits(s@);
    assert(d == s@.subrange(start as int, n as int));
    if start >= n {
        return None;
    }
    let mut value: u64 = 0;
    let mut i: usize = start;
    while i < n
        invariant
            n == s@.len(),
            start <= i <= n,
            d == s@.subrange(start as int, n as int),
            d == unsigned_digits(s@),
            forall|k: int| start <= k < i ==> is_digit(#[trigger] s@[k]),
            value as int == digits_value(s@.subrange(start as int, i as int)),
            value <= u16::MAX,
        decreases n - i,
    {
        let c = s.get_char(i);
        if !('0' <= c && c <= '9') {
            assert(d[i - start] == c);
            assert(!is_digit(d[i - start]));
            return None;
        }
        value = value * 10 + ((c as u32 - '0' as u32) as u64);
        proof {
            let t = s@.subrange(start as int, i as int + 1);
            assert(t.drop_last() == s@.subrange(start as int, i as int));
            assert(t.last() == c);
            assert(value as int == digits_value(t));
        }
        if value > 65535 {
            proof {
                if forall|k: int| 0 <= k < d.len() ==> is_digit(#[trigger] d[k]) {
                    lemma_digits_value_grows(d, i + 1 - start);
                    assert(d.subrange(0, i + 1 - start) == s@.subrange(start as int, i as int + 1));
                }
            }
            return None;
        }
        i += 1;
    }
    proof {
        assert(s@.subrange(start as int, n as int) == d);
        assert forall|k: int| 0 <= k < d.len() implies is_digit(#[trigger] d[k]) by {
            assert(d[k] == s@[start + k]);
        };
    }
    Some(value as u16)
}

impl AppConfig {
    /// Applies the settings edited in the UI: the log level, and for the
    /// first server, if there is one, its host, its port (the default port
    /// when `ollama_host` is not a number that fits) and its model.
    pub fn update_from_ui(&mut self, log_level: String, ollama_url: String, ollama_host: String, ollama_model: String)
        ensures
            final(self).log_level == log_level,
            final(self).font == old(self).font,
            final(self).ollama_setting@.len() == old(self).ollama_setting@.len(),
            old(self).ollama_setting@.len() > 0 ==> {
                let s = final(self).ollama_setting@[0];
                &&& s.host == ollama_url
                &&& s.port == match parse_u16_spec(ollama_host@) {
                    Some(p) => p,
                    None => DEFAULT_OLLAMA_PORT,
                }
                &&& s.model == ollama_model
                &&& s.prompt == old(self).ollama_setting@[0].prompt
                &&& final(self).ollama_setting@.subrange(1, final(self).ollama_setting@.len() as int)
                    == old(self).ollama_setting@.subrange(1, old(self).ollama_setting@.len() as int)
            },
            old(self).ollama_setting@.len() == 0 ==> final(self).ollama_setting@ == old(self).ollama_setting@,
    {
        self.log_level = log_level;
        if self.ollama_setting.len() > 0 {
            let port = match parse_port(ollama_host.as_str()) {
                Some(p) => p,
                None => DEFAULT_OLLAMA_PORT,
            };
            let prompt = self.ollama_setting[0].prompt.clone();
            let updated = OllamaSetting { port, model: ollama_model, host: ollama_url, prompt };
            self.ollama_setting[0] = updated;
        }
    }
}

} // verus!
