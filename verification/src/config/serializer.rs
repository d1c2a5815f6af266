//! A TOML rendering of the parts of the configuration a user edits by hand.
use vstd::prelude::*;

use crate::config::app::{default_template_text, text_or, AppConfig};
use crate::config::tool::ToolConfig;
use crate::text::push_char;

verus! {

/// `s` with each double quote preceded by a backslash.
pub open spec fn escape_quotes(s: Seq<char>) -> Seq<char>
    decreases s.len(),
{
    if s.len() == 0 {
        Seq::empty()
    } else {
        let rest = escape_quotes(s.drop_last());
        if s.last() == '"' {
            rest.push('\\').push('"')
        } else {
            rest.push(s.last())
        }
    }
}

/// The line listing one tool.
pub open spec fn tool_line(t: ToolConfig) -> Seq<char> {
    match t.description {
        Some(d) => "    { name = \""@ + escape_quotes(t.name@) + "\", description = \""@ + escape_quotes(d@)
            + "\" },\n"@,
        None => "    \""@ + escape_quotes(t.name@) + "\",\n"@,
    }
}

/// The lines listing the tools, in order.
pub open spec fn tool_lines(ts: Seq<ToolConfig>) -> Seq<char>
    decreases ts.len(),
{
    if ts.len() == 0 {
        Seq::empty()
    } else {
        tool_lines(ts.drop_last()) + tool_line(ts.last())
    }
}

/// The rendering: an optional `system_prompt` line, the prompt template as a
/// multi-line string (ending in a newline), and the tool list when not empty.
pub open spec fn rendered_config(system_prompt: Option<Seq<char>>, prompt_template: Seq<char>, tools: Seq<ToolConfig>) -> Seq<char> {
    let head = match system_prompt {
        Some(p) => "system_prompt = \""@ + escape_quotes(p) + "\"\n\n"@,
        None => Seq::empty(),
    };
    let template_end = if prompt_template.len() > 0 && prompt_template.last() == '\n' {
        Seq::empty()
    } else {
        seq!['\n']
    };
    let tools_part = if tools.len() == 0 {
        Seq::empty()
    } else {
        "tools = [\n"@ + tool_lines(tools) + "]\n"@
    };
    head + "prompt_template = \"\"\"\n"@ + prompt_template + template_end + "\"\"\"\n"@ + tools_part
}

fn push_escaped(out: &mut String, s: &str)
    ensures
        final(out)@ == old(out)@ + escape_quotes(s@),
{
    let n = s.unicode_len();
    let mut i: usize = 0;
    while i < n
        invariant
            n == s@.len(),
            i <= n,
            out@ == old(out)@ + escape_quotes(s@.take(i as int)),
        decreases n - i,
    {
        let c = s.get_char(i);
        proof {
            assert(s@.take(i + 1).drop_last() =~= s@.take(i as int));
        }
        if c == '"' {
            push_char(out, '\\');
            push_char(out, '"');
        } else {
            push_char(out, c);
        }
        i = i + 1;
    }
    proof {
        assert(s@.take(n as int) =~= s@);
    }
}

fn render_config_raw(system_prompt: Option<&str>, prompt_template: &str, tools: &[ToolConfig]) -> (r: String)
    ensures
        r@ == rendered_config(
            match system_prompt {
                Some(p) => Some(p@),
                None => None,
            },
            prompt_template@,
            tools@,
        ),
{
    let mut raw = String::new();
    if let Some(p) = system_prompt {
        raw.append("system_prompt = \"");
        push_escaped(&mut raw, p);
        raw.append("\"\n\n");
    }
    raw.append("prompt_template = \"\"\"\n");
    raw.append(prompt_template);
    let n = prompt_template.unicode_len();
    if !(n > 0 && prompt_template.get_char(n - 1) == '\n') {
        push_char(&mut raw, '\n');
    }
    raw.append("\"\"\"\n");
    if tools.len() > 0 {
        raw.append("tools = [\n");
        let ghost before = raw@;
        let mut i: usize = 0;
        while i < tools.len()
            invariant
                i <= tools@.len(),
                raw@ == before + tool_lines(tools@.take(i as int)),
            decreases tools@.len() - i,
        {
            let t = &tools[i];
            proof {
                assert(tools@.take(i + 1).drop_last() =~= tools@.take(i as int));
            }
            match &t.description {
                Some(d) => {
                    raw.append("    { name = \"");
                    push_escaped(&mut raw, t.name.as_str());
                    raw.append("\", description = \"");
                    push_escaped(&mut raw, d.as_str());
                    raw.append("\" },\n");
                },
                None => {
                    raw.append("    \"");
                    push_escaped(&mut raw, t.name.as_str());
                    raw.append("\",\n");
                },
            }
            i = i + 1;
        }
        proof {
            assert(tools@.take(i as int) =~= tools@);
        }
        raw.append("]\n");
    }
    raw
}

/// The TOML rendering of a configuration's system prompt, prompt template and
/// tools.
pub fn to_raw_toml_string(config: &AppConfig) -> (r: String)
    ensures
        r@ == rendered_config(
            match config.system_prompt {
                Some(p) => Some(p@),
                None => None,
            },
            text_or(config.prompts.template, default_template_text()),
            config.tools@,
        ),
{
    let system_prompt = match &config.system_prompt {
        Some(p) => Some(p.as_str()),
        None => None,
    };
    render_config_raw(system_prompt, config.prompt_template(), config.tools.as_slice())
}

impl AppConfig {
    /// The TOML rendering of the system prompt, prompt template and tools.
    pub fn to_raw_toml(&self) -> (r: String)
        ensures
            r@ == rendered_config(
                match self.system_prompt {
                    Some(p) => Some(p@),
                    None => None,
                },
                text_or(self.prompts.template, default_template_text()),
                self.tools@,
            ),
    {
        to_raw_toml_string(self)
    }
}

} // verus!
