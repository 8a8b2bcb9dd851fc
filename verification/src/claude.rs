//! Adapter for the agent tool that frames its output as a stream of JSON
//! events: text is probed from several places in each record, and assistant
//! attribution comes from the record's role or event type.
use vstd::prelude::*;

use crate::adapters::{args_view, CliType, CommandOptions, CommandSpec, LineType, ParsedLine,
    ParsedLineModel};
use crate::json::{parse_json, json_doc_of, JsonNode};
use crate::text::{line_seq, line_break, spec_contains, str_contains, str_eq, strip_cr, trim_spec,
    trim_str};

verus! {

/// The empty sequence in place of a missing text.
pub open spec fn opt_text(o: Option<Seq<char>>) -> Seq<char> {
    match o {
        Some(s) => s,
        None => Seq::empty(),
    }
}

/// The text of one element of a content array: the element itself when it is
/// a string, else its `text`, else its `content` member.
pub open spec fn item_text(item: JsonNode) -> Option<Seq<char>> {
    match item.spec_as_str() {
        Some(s) => Some(s),
        None => match item.spec_get_str("text"@) {
            Some(s) => Some(s),
            None => item.spec_get_str("content"@),
        },
    }
}

/// The texts of all elements of `items`, concatenated.
pub open spec fn concat_texts(items: Seq<JsonNode>) -> Seq<char>
    decreases items.len(),
{
    if items.len() == 0 {
        Seq::empty()
    } else {
        opt_text(item_text(items[0])) + concat_texts(items.skip(1))
    }
}

/// The joined element texts of an array, when `v` is an array and the join is
/// non-empty.
pub open spec fn join_texts(v: JsonNode) -> Option<Seq<char>> {
    match v {
        JsonNode::Arr(items) => {
            let c = concat_texts(items@);
            if c.len() > 0 {
                Some(c)
            } else {
                None
            }
        },
        _ => None,
    }
}

/// The text of a `content` member: itself when a string, else its joined
/// array elements.
pub open spec fn content_text(c: JsonNode) -> Option<Seq<char>> {
    match c.spec_as_str() {
        Some(s) => Some(s),
        None => join_texts(c),
    }
}

/// The text of a `delta` member: its `text` member, else the joined elements
/// of its `content` member (of the delta itself when there is none).
pub open spec fn delta_text(d: JsonNode) -> Option<Seq<char>> {
    match d.spec_get_str("text"@) {
        Some(s) => Some(s),
        None => join_texts(
            match d.spec_get("content"@) {
                Some(c) => c,
                None => d,
            },
        ),
    }
}

/// The text of a `message` member: its `text` member, else the joined
/// elements of its `content` member.
pub open spec fn message_text(m: JsonNode) -> Option<Seq<char>> {
    match m.spec_get_str("text"@) {
        Some(s) => Some(s),
        None => match m.spec_get("content"@) {
            Some(c) => join_texts(c),
            None => None,
        },
    }
}

/// Where a stream-JSON event's text is found: top-level `text`, then `content`,
/// then `delta`, then `message`, first hit wins.
pub open spec fn claude_extract(v: JsonNode) -> Option<Seq<char>> {
    match v.spec_get_str("text"@) {
        Some(s) => Some(s),
        None => {
            let from_content = match v.spec_get("content"@) {
                Some(c) => content_text(c),
                None => None,
            };
            match from_content {
                Some(s) => Some(s),
                None => {
                    let from_delta = match v.spec_get("delta"@) {
                        Some(d) => delta_text(d),
                        None => None,
                    };
                    match from_delta {
                        Some(s) => Some(s),
                        None => match v.spec_get("message"@) {
                            Some(m) => message_text(m),
                            None => None,
                        },
                    }
                },
            }
        },
    }
}

/// Whether a stream-JSON record counts as assistant output: its `role` is
/// "assistant", or, when it carries no role string, its event `type` mentions
/// a message, content or assistant event.
pub open spec fn claude_is_assistant(v: JsonNode) -> bool {
    match v.spec_get_str("role"@) {
        Some(role) => role == "assistant"@,
        None => {
            let et = opt_text(v.spec_get_str("type"@));
            spec_contains(et, "message"@) || spec_contains(et, "content"@) || spec_contains(
                et,
                "assistant"@,
            )
        },
    }
}

/// How a stream-JSON document is normalised: probed text, assistant attribution,
/// and the raw line in place of an empty extraction unless the event is a
/// known content-free type.
pub open spec fn claude_parse_doc(v: JsonNode, line: Seq<char>) -> ParsedLineModel {
    let extracted = opt_text(claude_extract(v));
    let et = opt_text(v.spec_get_str("type"@));
    let content = if trim_spec(extracted).len() == 0 && et != "ping"@ && et != "progress"@ {
        line
    } else {
        extracted
    };
    ParsedLineModel { content, line_type: LineType::Json, is_assistant: claude_is_assistant(v) }
}

/// How a stream-JSON line is normalised: JSON lines through `claude_parse_doc`,
/// anything else passed through as plain text that is not assistant output.
pub open spec fn claude_parse(doc: Option<JsonNode>, line: Seq<char>) -> ParsedLineModel {
    match doc {
        Some(v) => claude_parse_doc(v, line),
        None => ParsedLineModel { content: line, line_type: LineType::Text, is_assistant: false },
    }
}

/// Whether one output line signals completion: it parses as assistant output
/// whose content carries the sentinel.
pub open spec fn claude_completes_line(l: Seq<char>, signal: Seq<char>) -> bool {
    let p = claude_parse(json_doc_of(l), l);
    p.is_assistant && spec_contains(p.content, signal)
}

/// Whether any line of `output` signals completion.
pub open spec fn claude_detects(output: Seq<char>, signal: Seq<char>) -> bool {
    exists|i: int|
        0 <= i < line_seq(output).len() && claude_completes_line(line_seq(output)[i], signal)
}

/// The argument vector of a stream-JSON run: the prompt as an argument when
/// `prompt_via_stdin` is false, an explicit text input format otherwise.
pub open spec fn claude_args(prompt: Seq<char>, prompt_via_stdin: bool) -> Seq<Seq<char>> {
    let head = seq![
        "--print"@,
        "--dangerously-skip-permissions"@,
        "--permission-mode"@,
        "bypassPermissions"@,
        "--verbose"@,
    ];
    let mid = if prompt_via_stdin {
        seq!["--input-format"@, "text"@]
    } else {
        seq![prompt]
    };
    head + mid + seq!["--output-format"@, "stream-json"@, "--include-partial-messages"@]
}

pub struct ClaudeCodeAdapter {
    pub path: Option<String>,
}

/// The executable this adapter invokes: the embedding application resolves
/// the tool's path; until it does, the program name is empty and a spawn
/// fails like any other missing executable.
pub open spec fn claude_exe(path: Option<String>) -> Seq<char> {
    match path {
        Some(p) => p@,
        None => Seq::empty(),
    }
}

impl ClaudeCodeAdapter {
    /// An adapter with no resolved executable path; the embedding
    /// application locates the executable and uses `with_path`.
    pub fn new() -> (r: Self)
        ensures
            r.path is None,
    {
        ClaudeCodeAdapter { path: None }
    }

    /// An adapter with the given resolved executable path.
    pub fn with_path(path: Option<String>) -> (r: Self)
        ensures
            r.path == path,
    {
        ClaudeCodeAdapter { path }
    }

    pub fn cli_type(&self) -> (r: CliType)
        ensures
            r == CliType::Claude,
    {
        CliType::Claude
    }

    pub fn is_installed(&self) -> (r: bool)
        ensures
            r == (self.path is Some),
    {
        self.path.is_some()
    }

    pub fn get_path(&self) -> (r: Option<String>)
        ensures
            match r {
                Some(p) => self.path matches Some(q) && p@ == q@,
                None => self.path is None,
            },
    {
        match &self.path {
            Some(p) => Some(p.clone()),
            None => None,
        }
    }

    /// The arguments of one run. `prompt_via_stdin` says whether the
    /// host delivers the prompt on the child's standard input (the host where
    /// an argument would pop a console window) rather than as an argument.
    pub fn command_args(prompt: &str, prompt_via_stdin: bool) -> (args: Vec<String>)
        ensures
            args_view(args) == claude_args(prompt@, prompt_via_stdin),
    {
        let mut args: Vec<String> = Vec::new();
        args.push("--print".to_owned());
        args.push("--dangerously-skip-permissions".to_owned());
        args.push("--permission-mode".to_owned());
        args.push("bypassPermissions".to_owned());
        args.push("--verbose".to_owned());
        if prompt_via_stdin {
            args.push("--input-format".to_owned());
            args.push("text".to_owned());
        } else {
            args.push(prompt.to_owned());
        }
        args.push("--output-format".to_owned());
        args.push("stream-json".to_owned());
        args.push("--include-partial-messages".to_owned());
        proof {
            assert(args_view(args) =~= claude_args(prompt@, prompt_via_stdin));
        }
        args
    }

    fn executable(&self) -> (r: String)
        ensures
            r@ == claude_exe(self.path),
    {
        match &self.path {
            Some(p) => p.clone(),
            None => String::new(),
        }
    }

    /// A ready-to-spawn description of one run.
    pub fn build_command(
        &self,
        prompt: &str,
        working_dir: &str,
        _options: CommandOptions,
        prompt_via_stdin: bool,
    ) -> (c: CommandSpec)
        ensures
            c.program@ == claude_exe(self.path),
            args_view(c.args) == claude_args(prompt@, prompt_via_stdin),
            c.working_dir@ == working_dir@,
            c.prompt_via_stdin == prompt_via_stdin,
    {
        CommandSpec {
            program: self.executable(),
            args: Self::command_args(prompt, prompt_via_stdin),
            working_dir: working_dir.to_owned(),
            prompt_via_stdin,
        }
    }

    /// A ready-to-spawn description of one read-only run; this tool uses the
    /// same argument set for meta-tasks.
    pub fn build_readonly_command(
        &self,
        prompt: &str,
        working_dir: &str,
        _options: CommandOptions,
        prompt_via_stdin: bool,
    ) -> (c: CommandSpec)
        ensures
            c.program@ == claude_exe(self.path),
            args_view(c.args) == claude_args(prompt@, prompt_via_stdin),
            c.working_dir@ == working_dir@,
            c.prompt_via_stdin == prompt_via_stdin,
    {
        self.build_command(prompt, working_dir, _options, prompt_via_stdin)
    }

    /// Join the texts of the elements of a content array.
    pub fn join_text_array(value: &JsonNode) -> (r: Option<String>)
        ensures
            match r {
                Some(s) => join_texts(*value) == Some(s@),
                None => join_texts(*value) is None,
            },
    {
        let items = match value {
            JsonNode::Arr(items) => items,
            _ => {
                return None;
            },
        };
        let mut acc = String::new();
        let mut i: usize = 0;
        proof {
            assert(items@.take(0) =~= Seq::<JsonNode>::empty());
        }
        while i < items.len()
            invariant
                0 <= i <= items@.len(),
                acc@ == concat_texts(items@.take(i as int)),
            decreases items@.len() - i,
        {
            let it = &items[i];
            let t: Option<&String> = match it.as_str() {
                Some(s) => Some(s),
                None => match it.get_str("text") {
                    Some(s) => Some(s),
                    None => it.get_str("content"),
                },
            };
            if let Some(s) = t {
                acc.append(s.as_str());
            }
            proof {
                assert(items@.take(i + 1) =~= items@.take(i as int).push(items@[i as int]));
                lemma_concat_texts_push(items@.take(i as int), items@[i as int]);
                assert(acc@ =~= concat_texts(items@.take(i + 1)));
            }
            i = i + 1;
        }
        proof {
            assert(items@.take(items@.len() as int) =~= items@);
        }
        if acc.as_str().unicode_len() > 0 {
            Some(acc)
        } else {
            None
        }
    }

    /// Where a stream-JSON event's text is found.
    pub fn extract_text(value: &JsonNode) -> (r: Option<String>)
        ensures
            match r {
                Some(s) => claude_extract(*value) == Some(s@),
                None => claude_extract(*value) is None,
            },
    {
        if let Some(t) = value.get_str("text") {
            return Some(t.clone());
        }
        if let Some(c) = value.get("content") {
            if let Some(t) = c.as_str() {
                return Some(t.clone());
            }
            if let Some(t) = Self::join_text_array(c) {
                return Some(t);
            }
        }
        if let Some(d) = value.get("delta") {
            if let Some(t) = d.get_str("text") {
                return Some(t.clone());
            }
            let target = match d.get("content") {
                Some(c) => c,
                None => d,
            };
            if let Some(t) = Self::join_text_array(target) {
                return Some(t);
            }
        }
        if let Some(m) = value.get("message") {
            if let Some(t) = m.get_str("text") {
                return Some(t.clone());
            }
            if let Some(c) = m.get("content") {
                if let Some(t) = Self::join_text_array(c) {
                    return Some(t);
                }
            }
        }
        None
    }

    /// Normalise one already-parsed stream-JSON document.
    pub fn classify_doc(value: &JsonNode, line: &str) -> (p: ParsedLine)
        ensures
            p@ == claude_parse_doc(*value, line@),
    {
        let extracted: String = match Self::extract_text(value) {
            Some(t) => t,
            None => String::new(),
        };
        let is_assistant: bool = match value.get_str("role") {
            Some(role) => str_eq(role.as_str(), "assistant"),
            None => {
                let empty = String::new();
                let et: &String = match value.get_str("type") {
                    Some(t) => t,
                    None => &empty,
                };
                str_contains(et.as_str(), "message") || str_contains(et.as_str(), "content")
                    || str_contains(et.as_str(), "assistant")
            },
        };
        let empty = String::new();
        let et: &String = match value.get_str("type") {
            Some(t) => t,
            None => &empty,
        };
        let content: String = if trim_str(extracted.as_str()).unicode_len() == 0 && !str_eq(
            et.as_str(),
            "ping",
        ) && !str_eq(et.as_str(), "progress") {
            line.to_owned()
        } else {
            extracted
        };
        let p = ParsedLine { content, line_type: LineType::Json, is_assistant };
        proof {
            assert(p@ =~= claude_parse_doc(*value, line@));
        }
        p
    }

    /// Normalise one stream-JSON output line.
    pub fn parse_output_line(&self, line: &str) -> (p: ParsedLine)
        ensures
            p@ == claude_parse(json_doc_of(line@), line@),
    {
        match parse_json(line) {
            Some(value) => Self::classify_doc(&value, line),
            None => {
                let p = ParsedLine {
                    content: line.to_owned(),
                    line_type: LineType::Text,
                    is_assistant: false,
                };
                proof {
                    assert(p@ =~= claude_parse(json_doc_of(line@), line@));
                }
                p
            },
        }
    }

    /// Whether any line of `output` is assistant output carrying the
    /// sentinel.
    #[verifier::loop_isolation(false)]
    #[verifier::rlimit(100)]
    pub fn detect_completion(&self, output: &str, signal: &str) -> (b: bool)
        ensures
            b == claude_detects(output@, signal@),
    {
        let len = output.unicode_len();
        let ghost whole: Seq<Seq<char>> = line_seq(output@);
        let ghost processed: Seq<Seq<char>> = Seq::empty();
        let mut start: usize = 0;
        proof {
            assert(output@.subrange(0, len as int) =~= output@);
            assert(processed + line_seq(output@) =~= whole);
        }
        let mut done: Ghost<Seq<Seq<char>>> = Ghost(processed);
        while start < len
            invariant
                0 <= start <= len,
                whole =~= done@ + line_seq(output@.subrange(start as int, len as int)),
                forall|j: int| 0 <= j < done@.len() ==> !claude_completes_line(done@[j], signal@),
            decreases len - start,
        {
            let ghost t = output@.subrange(start as int, len as int);
            let mut e: usize = start;
            while e < len && output.get_char(e) != '\n'
                invariant
                    start <= e <= len,
                    forall|k: int| start <= k < e ==> output@[k] != '\n',
                decreases len - e,
            {
                e = e + 1;
            }
            proof {
                assert forall|k: int| 0 <= k < e - start implies t[k] != '\n' by {
                    assert(t[k] == output@[k + start]);
                }
                if e < len {
                    assert(t[e - start] == output@[e as int]);
                }
                lemma_line_break_at_claude(t, e - start);
            }
            let line_end: usize = if e > start && output.get_char(e - 1) == '\r' {
                e - 1
            } else {
                e
            };
            proof {
                let raw = t.subrange(0, e - start);
                assert(raw =~= output@.subrange(start as int, e as int));
                if e > start && output@[e as int - 1] == '\r' {
                    assert(raw.last() == output@[e as int - 1]);
                    assert(strip_cr(raw) =~= output@.subrange(start as int, line_end as int));
                } else {
                    if raw.len() > 0 {
                        assert(raw.last() == output@[e as int - 1]);
                    }
                    assert(strip_cr(raw) =~= output@.subrange(start as int, line_end as int));
                }
            }
            let line = output.substring_char(start, line_end);
            let p = self.parse_output_line(line);
            let hit = p.is_assistant && str_contains(p.content.as_str(), signal);
            proof {
                let i = (e - start) as int;
                if i >= t.len() {
                    assert(line_seq(t) =~= seq![strip_cr(t.subrange(0, i))]);
                } else {
                    assert(line_seq(t) =~= seq![strip_cr(t.subrange(0, i))] + line_seq(
                        t.subrange(i + 1, t.len() as int),
                    ));
                }
                assert(line_seq(t)[0] == line@);
            }
            if hit {
                proof {
                    assert(whole[done@.len() as int] == line@);
                    assert(claude_completes_line(line@, signal@));
                }
                return true;
            }
            proof {
                done@ = done@.push(line@);
                if (e - start) < t.len() {
                    assert(t.subrange(e - start + 1, t.len() as int) =~= output@.subrange(
                        e + 1,
                        len as int,
                    ));
                } else {
                    assert(line_seq(output@.subrange(len as int, len as int)) =~= Seq::<
                        Seq<char>,
                    >::empty());
                }
                let next = if e < len {
                    e + 1
                } else {
                    len as int
                };
                assert(whole =~= done@ + line_seq(output@.subrange(next, len as int)));
            }
            start = if e < len {
                e + 1
            } else {
                len
            };
        }
        proof {
            assert(line_seq(output@.subrange(start as int, len as int)) =~= Seq::<
                Seq<char>,
            >::empty());
            assert(whole =~= done@);
        }
        false
    }
}

proof fn lemma_concat_texts_push(items: Seq<JsonNode>, x: JsonNode)
    ensures
        concat_texts(items.push(x)) == concat_texts(items) + opt_text(item_text(x)),
    decreases items.len(),
{
    if items.len() == 0 {
        assert(items.push(x)[0] == x);
        assert(items.push(x).skip(1) =~= Seq::<JsonNode>::empty());
        assert(concat_texts(Seq::<JsonNode>::empty()) == Seq::<char>::empty());
        assert(concat_texts(items.push(x)) == opt_text(item_text(x)) + Seq::<char>::empty());
        assert(concat_texts(items.push(x)) =~= concat_texts(items) + opt_text(item_text(x)));
    } else {
        assert(items.push(x)[0] == items[0]);
        assert(items.push(x).skip(1) =~= items.skip(1).push(x));
        lemma_concat_texts_push(items.skip(1), x);
        assert(concat_texts(items.push(x)) == opt_text(item_text(items[0])) + concat_texts(
            items.skip(1).push(x),
        ));
        assert(concat_texts(items) == opt_text(item_text(items[0])) + concat_texts(items.skip(1)));
        vstd::seq_lib::lemma_concat_associative(
            opt_text(item_text(items[0])),
            concat_texts(items.skip(1)),
            opt_text(item_text(x)),
        );
        assert(concat_texts(items.push(x)) =~= concat_texts(items) + opt_text(item_text(x)));
    }
}

proof fn lemma_line_break_at_claude(s: Seq<char>, j: int)
    requires
        0 <= j <= s.len(),
        forall|k: int| 0 <= k < j ==> s[k] != '\n',
        j == s.len() || s[j] == '\n',
    ensures
        line_break(s) == j,
    decreases j,
{
    if j == 0 {
    } else {
        assert(s[0] != '\n');
        lemma_line_break_at_claude(s.skip(1), j - 1);
    }
}

} // verus!
