//! Adapter for the OpenCode-style agent tool: JSON event stream, a "plan"
//! agent for read-only runs, and a full-access permissions document merged
//! into the user's configuration before spawn.
use vstd::prelude::*;

use crate::adapters::{args_view, CliType, CommandOptions, CommandSpec, LineType, ParsedLine,
    ParsedLineModel};
use crate::json::{parse_json, json_doc_of, JsonNode};
use crate::text::{spec_contains, str_contains, str_eq};

verus! {

/// The argument vector of an OpenCode run command.
pub open spec fn opencode_args(prompt: Seq<char>) -> Seq<Seq<char>> {
    seq!["run"@, "--format"@, "json"@, prompt]
}

/// The argument vector of an OpenCode read-only command: the plan agent.
pub open spec fn opencode_readonly(prompt: Seq<char>) -> Seq<Seq<char>> {
    seq!["run"@, "--format"@, "json"@, "--agent"@, "plan"@, prompt]
}

/// The member `a`.`b` of `v`, when `v` is an object whose member `a` is an
/// object with a string member `b`.
pub open spec fn nested_str(v: JsonNode, a: Seq<char>, b: Seq<char>) -> Option<Seq<char>> {
    match v.spec_get(a) {
        Some(n) => n.spec_get_str(b),
        None => None,
    }
}

/// Where an OpenCode event's text is found: `part.text`, `text`,
/// `error.message`, `message`, then `data.message`, first hit wins.
pub open spec fn oc_extract(v: JsonNode) -> Option<Seq<char>> {
    if nested_str(v, "part"@, "text"@) is Some {
        nested_str(v, "part"@, "text"@)
    } else if v.spec_get_str("text"@) is Some {
        v.spec_get_str("text"@)
    } else if nested_str(v, "error"@, "message"@) is Some {
        nested_str(v, "error"@, "message"@)
    } else if v.spec_get_str("message"@) is Some {
        v.spec_get_str("message"@)
    } else {
        nested_str(v, "data"@, "message"@)
    }
}

/// How an OpenCode document is normalised: a `text` event is assistant
/// output, an `error` event is an error frame, anything else is a neutral
/// structured frame; missing text falls back as the original line.
pub open spec fn oc_parse_doc(v: JsonNode, line: Seq<char>) -> ParsedLineModel {
    let et = match v.spec_get_str("type"@) {
        Some(t) => t,
        None => Seq::empty(),
    };
    if et == "text"@ {
        ParsedLineModel {
            content: match oc_extract(v) {
                Some(t) => t,
                None => Seq::empty(),
            },
            line_type: LineType::Json,
            is_assistant: true,
        }
    } else if et == "error"@ {
        ParsedLineModel {
            content: match oc_extract(v) {
                Some(t) => t,
                None => line,
            },
            line_type: LineType::Error,
            is_assistant: false,
        }
    } else {
        ParsedLineModel {
            content: match oc_extract(v) {
                Some(t) => t,
                None => line,
            },
            line_type: LineType::Json,
            is_assistant: false,
        }
    }
}

/// How an OpenCode line is normalised: JSON lines through `oc_parse_doc`,
/// anything else passed through as assistant plain text.
pub open spec fn oc_parse(doc: Option<JsonNode>, line: Seq<char>) -> ParsedLineModel {
    match doc {
        Some(v) => oc_parse_doc(v, line),
        None => ParsedLineModel { content: line, line_type: LineType::Text, is_assistant: true },
    }
}

pub struct OpenCodeAdapter {
    pub path: Option<String>,
}

/// The executable name an OpenCode adapter resolves to.
pub open spec fn opencode_exe(path: Option<String>) -> Seq<char> {
    match path {
        Some(p) => p@,
        None => "opencode"@,
    }
}

impl OpenCodeAdapter {
    /// An OpenCode adapter with no resolved executable path; the embedding
    /// application locates the executable and uses `with_path`.
    pub fn new() -> (r: Self)
        ensures
            r.path is None,
    {
        OpenCodeAdapter { path: None }
    }

    /// An OpenCode adapter with the given resolved executable path.
    pub fn with_path(path: Option<String>) -> (r: Self)
        ensures
            r.path == path,
    {
        OpenCodeAdapter { path }
    }

    pub fn name(&self) -> (r: &'static str)
        ensures
            r@ == "OpenCode"@,
    {
        "OpenCode"
    }

    pub fn cli_type(&self) -> (r: CliType)
        ensures
            r == CliType::OpenCode,
    {
        CliType::OpenCode
    }

    pub fn is_installed(&self) -> (r: bool)
        ensures
            r == (self.path is Some),
    {
        self.path.is_some()
    }

    pub fn get_path(&self) -> (r: Option<String>)
        ensures
            match r {
                Some(p) => self.path matches Some(q) && p@ == q@,
                None => self.path is None,
            },
    {
        match &self.path {
            Some(p) => Some(p.clone()),
            None => None,
        }
    }

    /// The arguments of an OpenCode run command.
    pub fn exec_args(prompt: &str) -> (args: Vec<String>)
        ensures
            args_view(args) == opencode_args(prompt@),
    {
        let mut args: Vec<String> = Vec::new();
        args.push("run".to_owned());
        args.push("--format".to_owned());
        args.push("json".to_owned());
        args.push(prompt.to_owned());
        proof {
            assert(args_view(args) =~= opencode_args(prompt@));
        }
        args
    }

    /// The arguments of an OpenCode read-only command.
    pub fn readonly_args(prompt: &str) -> (args: Vec<String>)
        ensures
            args_view(args) == opencode_readonly(prompt@),
    {
        let mut args: Vec<String> = Vec::new();
        args.push("run".to_owned());
        args.push("--format".to_owned());
        args.push("json".to_owned());
        args.push("--agent".to_owned());
        args.push("plan".to_owned());
        args.push(prompt.to_owned());
        proof {
            assert(args_view(args) =~= opencode_readonly(prompt@));
        }
        args
    }

    fn executable(&self) -> (r: String)
        ensures
            r@ == opencode_exe(self.path),
    {
        match &self.path {
            Some(p) => p.clone(),
            None => "opencode".to_owned(),
        }
    }

    /// A ready-to-spawn description of an OpenCode run command.
    pub fn build_command(&self, prompt: &str, working_dir: &str, _options: CommandOptions) -> (c:
        CommandSpec)
        ensures
            c.program@ == opencode_exe(self.path),
            args_view(c.args) == opencode_args(prompt@),
            c.working_dir@ == working_dir@,
            c.prompt_via_stdin == false,
    {
        CommandSpec {
            program: self.executable(),
            args: Self::exec_args(prompt),
            working_dir: working_dir.to_owned(),
            prompt_via_stdin: false,
        }
    }

    /// A ready-to-spawn description of an OpenCode read-only command.
    pub fn build_readonly_command(
        &self,
        prompt: &str,
        working_dir: &str,
        _options: CommandOptions,
    ) -> (c: CommandSpec)
        ensures
            c.program@ == opencode_exe(self.path),
            args_view(c.args) == opencode_readonly(prompt@),
            c.working_dir@ == working_dir@,
            c.prompt_via_stdin == false,
    {
        CommandSpec {
            program: self.executable(),
            args: Self::readonly_args(prompt),
            working_dir: working_dir.to_owned(),
            prompt_via_stdin: false,
        }
    }

    /// The sentinel counts wherever it appears in the cumulative output.
    pub fn detect_completion(&self, output: &str, signal: &str) -> (b: bool)
        ensures
            b == spec_contains(output@, signal@),
    {
        str_contains(output, signal)
    }

    /// Where an OpenCode event's text is found.
    pub fn extract_text<'a>(value: &'a JsonNode) -> (r: Option<&'a String>)
        ensures
            match r {
                Some(s) => oc_extract(*value) == Some(s@),
                None => oc_extract(*value) is None,
            },
    {
        if let Some(part) = value.get("part") {
            if let Some(t) = part.get_str("text") {
                return Some(t);
            }
        }
        if let Some(t) = value.get_str("text") {
            return Some(t);
        }
        if let Some(err) = value.get("error") {
            if let Some(t) = err.get_str("message") {
                return Some(t);
            }
        }
        if let Some(t) = value.get_str("message") {
            return Some(t);
        }
        if let Some(data) = value.get("data") {
            if let Some(t) = data.get_str("message") {
                return Some(t);
            }
        }
        None
    }

    /// Normalise one already-parsed OpenCode document.
    pub fn classify_doc(value: &JsonNode, line: &str) -> (p: ParsedLine)
        ensures
            p@ == oc_parse_doc(*value, line@),
    {
        let empty = String::new();
        let event_type: &String = match value.get_str("type") {
            Some(t) => t,
            None => &empty,
        };
        let p = if str_eq(event_type.as_str(), "text") {
            ParsedLine {
                content: match Self::extract_text(value) {
                    Some(t) => t.clone(),
                    None => String::new(),
                },
                line_type: LineType::Json,
                is_assistant: true,
            }
        } else if str_eq(event_type.as_str(), "error") {
            ParsedLine {
                content: match Self::extract_text(value) {
                    Some(t) => t.clone(),
                    None => line.to_owned(),
                },
                line_type: LineType::Error,
                is_assistant: false,
            }
        } else {
            ParsedLine {
                content: match Self::extract_text(value) {
                    Some(t) => t.clone(),
                    None => line.to_owned(),
                },
                line_type: LineType::Json,
                is_assistant: false,
            }
        };
        proof {
            assert(p@ =~= oc_parse_doc(*value, line@));
        }
        p
    }

    /// Normalise one OpenCode output line.
    pub fn parse_output_line(&self, line: &str) -> (p: ParsedLine)
        ensures
            p@ == oc_parse(json_doc_of(line@), line@),
    {
        match parse_json(line) {
            Some(value) => Self::classify_doc(&value, line),
            None => {
                let p = ParsedLine {
                    content: line.to_owned(),
                    line_type: LineType::Text,
                    is_assistant: true,
                };
                proof {
                    assert(p@ =~= oc_parse(json_doc_of(line@), line@));
                }
                p
            },
        }
    }
}

} // verus!

use crate::json::{obj_lookup, obj_set};

verus! {

// ---------------------------------------------------------------------------
// The full-access permissions document merged into the user's configuration.
// ---------------------------------------------------------------------------
/// A permission record with every capability set to "allow".
pub open spec fn is_full_access(n: JsonNode) -> bool {
    n.spec_get_str("edit"@) == Some("allow"@) && n.spec_get_str("bash"@) == Some("allow"@)
        && n.spec_get_str("webfetch"@) == Some("allow"@) && n.spec_get_str("doom_loop"@) == Some(
        "allow"@,
    ) && n.spec_get_str("external_directory"@) == Some("allow"@)
}

/// The full-access permission record.
pub fn full_access_permissions() -> (n: JsonNode)
    ensures
        is_full_access(n),
{
    proof {
        reveal_strlit("edit");
        reveal_strlit("bash");
        reveal_strlit("webfetch");
        reveal_strlit("doom_loop");
        reveal_strlit("external_directory");
    }
    let mut ms: Vec<(String, JsonNode)> = Vec::new();
    obj_set(&mut ms, "edit", JsonNode::Str("allow".to_owned()));
    obj_set(&mut ms, "bash", JsonNode::Str("allow".to_owned()));
    obj_set(&mut ms, "webfetch", JsonNode::Str("allow".to_owned()));
    obj_set(&mut ms, "doom_loop", JsonNode::Str("allow".to_owned()));
    obj_set(&mut ms, "external_directory", JsonNode::Str("allow".to_owned()));
    JsonNode::Obj(ms)
}

/// The member `key` of an object member `section`, seen from the outside.
pub open spec fn section_member(ms: Seq<(String, JsonNode)>, section: Seq<char>, key: Seq<char>)
    -> Option<JsonNode> {
    match obj_lookup(ms, section) {
        Some(e) => e.spec_get(key),
        None => None,
    }
}

/// The member named `key` holds an object whose `permission` member is the
/// full-access record.
pub open spec fn granted(ms: Seq<(String, JsonNode)>, key: Seq<char>) -> bool {
    match obj_lookup(ms, key) {
        Some(e) => match e.spec_get("permission"@) {
            Some(p) => is_full_access(p),
            None => false,
        },
        None => false,
    }
}

/// The member `sk` of the object held by the member `key` of `ms`.
pub open spec fn entry_member(
    ms: Seq<(String, JsonNode)>,
    key: Seq<char>,
    sk: Seq<char>,
) -> Option<JsonNode> {
    match obj_lookup(ms, key) {
        Some(e) => e.spec_get(sk),
        None => None,
    }
}

/// Give the entry named `key` a full-access `permission` member, creating
/// the entry when it is missing, replacing it when it is not an object, and
/// keeping its other members otherwise.
pub fn grant_entry(ms: &mut Vec<(String, JsonNode)>, key: &str)
    ensures
        granted(final(ms)@, key@),
        forall|k: Seq<char>| k != key@ ==> obj_lookup(final(ms)@, k) == obj_lookup(old(ms)@, k),
        forall|sk: Seq<char>|
            sk != "permission"@ ==> entry_member(final(ms)@, key@, sk) == entry_member(
                old(ms)@,
                key@,
                sk,
            ),
{
    let full = full_access_permissions();
    match crate::json::find_key(ms, key) {
        Some(i) => {
            let (_, node) = ms.remove(i);
            let ghost old_node = node;
            let mut inner: Vec<(String, JsonNode)> = match node {
                JsonNode::Obj(inner) => inner,
                _ => Vec::new(),
            };
            let ghost inner_before = inner@;
            obj_set(&mut inner, "permission", full);
            let entry = JsonNode::Obj(inner);
            ms.insert(i, (key.to_owned(), entry));
            proof {
                let p = final(ms)@[i as int];
                assert(final(ms)@ =~= old(ms)@.update(i as int, p));
                assert forall|k: Seq<char>| true implies obj_lookup(
                    old(ms)@.update(i as int, p),
                    k,
                ) == if k == p.0@ {
                    Some(p.1)
                } else {
                    obj_lookup(old(ms)@, k)
                } by {
                    crate::json::lemma_obj_lookup_update(old(ms)@, i as int, p, k);
                }
                crate::json::lemma_obj_lookup_at(old(ms)@, i as int, key@);
                assert(obj_lookup(old(ms)@, key@) == Some(old_node));
                assert forall|sk: Seq<char>| sk != "permission"@ implies entry_member(
                    final(ms)@,
                    key@,
                    sk,
                ) == entry_member(old(ms)@, key@, sk) by {
                    if !(old_node matches JsonNode::Obj(_)) {
                        assert(inner_before =~= Seq::<(String, JsonNode)>::empty());
                        crate::json::lemma_obj_lookup_absent(inner_before, sk);
                    }
                }
            }
        },
        None => {
            let mut inner: Vec<(String, JsonNode)> = Vec::new();
            let ghost inner_before = inner@;
            obj_set(&mut inner, "permission", full);
            let entry = JsonNode::Obj(inner);
            ms.push((key.to_owned(), entry));
            proof {
                let p = final(ms)@[final(ms)@.len() - 1];
                assert(final(ms)@ =~= old(ms)@.push(p));
                assert forall|k: Seq<char>| true implies obj_lookup(old(ms)@.push(p), k) == if k
                    == p.0@ {
                    Some(p.1)
                } else {
                    obj_lookup(old(ms)@, k)
                } by {
                    crate::json::lemma_obj_lookup_push(old(ms)@, p, k);
                }
                crate::json::lemma_obj_lookup_absent(old(ms)@, key@);
                assert forall|sk: Seq<char>| sk != "permission"@ implies entry_member(
                    final(ms)@,
                    key@,
                    sk,
                ) == entry_member(old(ms)@, key@, sk) by {
                    crate::json::lemma_obj_lookup_absent(inner_before, sk);
                }
            }
        },
    }
}

/// The members of the object held by the member `section`, the empty set when
/// the section is missing or not an object.
pub open spec fn section_inner(ms: Seq<(String, JsonNode)>, section: Seq<char>) -> Seq<
    (String, JsonNode),
> {
    match obj_lookup(ms, section) {
        Some(e) => match e {
            JsonNode::Obj(inner) => inner@,
            _ => Seq::empty(),
        },
        None => Seq::empty(),
    }
}

/// Give every entry listed in `keys` of the object member `section` a
/// full-access `permission` member; the section is created when missing and
/// replaced when it is not an object. Everything the user put there stays:
/// other top-level members, other entries of the section, and the other
/// members of each granted entry.
#[verifier::loop_isolation(false)]
pub fn grant_section(ms: &mut Vec<(String, JsonNode)>, section: &str, keys: &Vec<&str>)
    requires
        forall|a: int, b: int| 0 <= a < b < keys@.len() ==> keys@[a]@ != keys@[b]@,
    ensures
        match obj_lookup(final(ms)@, section@) {
            Some(e) => e matches JsonNode::Obj(inner) && forall|j: int|
                0 <= j < keys@.len() ==> granted(inner@, keys@[j]@),
            None => false,
        },
        forall|k: Seq<char>| k != section@ ==> obj_lookup(final(ms)@, k) == obj_lookup(old(ms)@, k),
        forall|k: Seq<char>, sk: Seq<char>|
            sk != "permission"@ ==> entry_member(section_inner(final(ms)@, section@), k, sk)
                == entry_member(section_inner(old(ms)@, section@), k, sk),
        forall|k: Seq<char>|
            (forall|j: int| 0 <= j < keys@.len() ==> k != keys@[j]@) ==> obj_lookup(
                section_inner(final(ms)@, section@),
                k,
            ) == obj_lookup(section_inner(old(ms)@, section@), k),
{
    let idx = crate::json::find_key(ms, section);
    let mut inner: Vec<(String, JsonNode)> = match idx {
        Some(i) => {
            let (_, node) = ms.remove(i);
            let ghost old_node = node;
            proof {
                crate::json::lemma_obj_lookup_at(old(ms)@, i as int, section@);
                assert(obj_lookup(old(ms)@, section@) == Some(old_node));
            }
            match node {
                JsonNode::Obj(inner) => inner,
                _ => Vec::new(),
            }
        },
        None => {
            proof {
                crate::json::lemma_obj_lookup_absent(old(ms)@, section@);
            }
            Vec::new()
        },
    };
    let ghost inner0 = inner@;
    proof {
        assert(inner0 =~= section_inner(old(ms)@, section@));
        assert forall|k: Seq<char>| true implies obj_lookup(Seq::<(String, JsonNode)>::empty(), k)
            is None by {
            crate::json::lemma_obj_lookup_absent(Seq::<(String, JsonNode)>::empty(), k);
        }
    }
    let mut j: usize = 0;
    while j < keys.len()
        invariant
            0 <= j <= keys@.len(),
            forall|jj: int| 0 <= jj < j ==> granted(inner@, keys@[jj]@),
            forall|k: Seq<char>, sk: Seq<char>|
                sk != "permission"@ ==> entry_member(inner@, k, sk) == entry_member(inner0, k, sk),
            forall|k: Seq<char>|
                (forall|jj: int| 0 <= jj < j ==> k != keys@[jj]@) ==> obj_lookup(inner@, k)
                    == obj_lookup(inner0, k),
        decreases keys@.len() - j,
    {
        let ghost before = inner@;
        grant_entry(&mut inner, keys[j]);
        proof {
            assert forall|jj: int| 0 <= jj < j + 1 implies granted(inner@, keys@[jj]@) by {
                if jj < j {
                    assert(keys@[jj]@ != keys@[j as int]@);
                    assert(obj_lookup(inner@, keys@[jj]@) == obj_lookup(before, keys@[jj]@));
                }
            }
            assert forall|k: Seq<char>, sk: Seq<char>| sk != "permission"@ implies entry_member(
                inner@,
                k,
                sk,
            ) == entry_member(inner0, k, sk) by {
                if k == keys@[j as int]@ {
                    assert(entry_member(inner@, k, sk) == entry_member(before, k, sk));
                } else {
                    assert(obj_lookup(inner@, k) == obj_lookup(before, k));
                }
            }
        }
        j = j + 1;
    }
    let entry = JsonNode::Obj(inner);
    match idx {
        Some(i) => {
            ms.insert(i, (section.to_owned(), entry));
            proof {
                let p = final(ms)@[i as int];
                assert(final(ms)@ =~= old(ms)@.update(i as int, p));
                assert forall|k: Seq<char>| true implies obj_lookup(
                    old(ms)@.update(i as int, p),
                    k,
                ) == if k == p.0@ {
                    Some(p.1)
                } else {
                    obj_lookup(old(ms)@, k)
                } by {
                    crate::json::lemma_obj_lookup_update(old(ms)@, i as int, p, k);
                }
            }
        },
        None => {
            ms.push((section.to_owned(), entry));
            proof {
                let p = final(ms)@[final(ms)@.len() - 1];
                assert(final(ms)@ =~= old(ms)@.push(p));
                assert forall|k: Seq<char>| true implies obj_lookup(old(ms)@.push(p), k) == if k
                    == p.0@ {
                    Some(p.1)
                } else {
                    obj_lookup(old(ms)@, k)
                } by {
                    crate::json::lemma_obj_lookup_push(old(ms)@, p, k);
                }
            }
        },
    }
}

/// The object member `section` of `ms` is an object whose entry `key` carries
/// the full-access permission.
pub open spec fn section_granted(
    ms: Seq<(String, JsonNode)>,
    section: Seq<char>,
    key: Seq<char>,
) -> bool {
    match obj_lookup(ms, section) {
        Some(e) => match e {
            JsonNode::Obj(inner) => granted(inner@, key),
            _ => false,
        },
        None => false,
    }
}

/// The members of a configuration, an empty set for anything that is not an
/// object.
pub open spec fn config_members(config: JsonNode) -> Seq<(String, JsonNode)> {
    match config {
        JsonNode::Obj(ms) => ms@,
        _ => Seq::empty(),
    }
}

/// Merge the full-access permissions into a user configuration: every agent
/// and mode entry the tool consults is granted full access; everything else
/// in the configuration is left as it was.
pub fn merge_permissions(config: JsonNode) -> (r: JsonNode)
    ensures
        r matches JsonNode::Obj(ms) && section_granted(ms@, "agent"@, "general"@)
            && section_granted(ms@, "agent"@, "build"@) && section_granted(ms@, "agent"@, "plan"@)
            && section_granted(ms@, "agent"@, "explore"@) && section_granted(ms@, "mode"@, "build"@)
            && section_granted(ms@, "mode"@, "plan"@) && (forall|k: Seq<char>|
            k != "agent"@ && k != "mode"@ ==> obj_lookup(ms@, k) == obj_lookup(
                config_members(config),
                k,
            )) && (forall|k: Seq<char>, sk: Seq<char>|
            sk != "permission"@ ==> entry_member(section_inner(ms@, "agent"@), k, sk)
                == entry_member(section_inner(config_members(config), "agent"@), k, sk)
                && entry_member(section_inner(ms@, "mode"@), k, sk) == entry_member(
                section_inner(config_members(config), "mode"@),
                k,
                sk,
            )) && (forall|k: Seq<char>|
            k != "general"@ && k != "build"@ && k != "plan"@ && k != "explore"@ ==> obj_lookup(
                section_inner(ms@, "agent"@),
                k,
            ) == obj_lookup(section_inner(config_members(config), "agent"@), k)) && (forall|
            k: Seq<char>,
        |
            k != "build"@ && k != "plan"@ ==> obj_lookup(section_inner(ms@, "mode"@), k)
                == obj_lookup(section_inner(config_members(config), "mode"@), k)),
{
    proof {
        reveal_strlit("agent");
        reveal_strlit("mode");
        reveal_strlit("general");
        reveal_strlit("build");
        reveal_strlit("plan");
        reveal_strlit("explore");
    }
    let mut ms: Vec<(String, JsonNode)> = match config {
        JsonNode::Obj(ms) => ms,
        _ => Vec::new(),
    };
    let ghost base = ms@;
    proof {
        assert forall|k: Seq<char>| true implies obj_lookup(base, k) == obj_lookup(
            config_members(config),
            k,
        ) by {
            if !(config matches JsonNode::Obj(_)) {
                assert(base =~= Seq::<(String, JsonNode)>::empty());
            }
        }
    }
    let mut agent_keys: Vec<&str> = Vec::new();
    agent_keys.push("general");
    agent_keys.push("build");
    agent_keys.push("plan");
    agent_keys.push("explore");
    proof {
        assert forall|a: int, b: int| 0 <= a < b < agent_keys@.len() implies agent_keys@[a]@
            != agent_keys@[b]@ by {
            reveal_strlit("general");
            reveal_strlit("build");
            reveal_strlit("plan");
            reveal_strlit("explore");
            assert(agent_keys@[0]@ == "general"@);
            assert(agent_keys@[1]@ == "build"@);
            assert(agent_keys@[2]@ == "plan"@);
            assert(agent_keys@[3]@ == "explore"@);
            assert("general"@ != "build"@);
            assert("general"@ != "plan"@);
            assert("general"@[0] == 'g');
            assert("explore"@[0] == 'e');
            assert("general"@ != "explore"@);
            assert("build"@ != "plan"@);
            assert("build"@ != "explore"@);
            assert("plan"@ != "explore"@);
        }
    }
    grant_section(&mut ms, "agent", &agent_keys);
    let mut mode_keys: Vec<&str> = Vec::new();
    mode_keys.push("build");
    mode_keys.push("plan");
    proof {
        assert forall|a: int, b: int| 0 <= a < b < mode_keys@.len() implies mode_keys@[a]@
            != mode_keys@[b]@ by {
            reveal_strlit("build");
            reveal_strlit("plan");
            assert(mode_keys@[0]@ == "build"@);
            assert(mode_keys@[1]@ == "plan"@);
            assert("build"@ != "plan"@);
        }
    }
    let ghost mid = ms@;
    grant_section(&mut ms, "mode", &mode_keys);
    proof {
        reveal_strlit("agent");
        reveal_strlit("mode");
        assert("agent"@.len() == 5);
        assert("mode"@.len() == 4);
        assert("agent"@ != "mode"@);
        assert(section_inner(base, "agent"@) =~= section_inner(config_members(config), "agent"@));
        assert(section_inner(base, "mode"@) =~= section_inner(config_members(config), "mode"@));
        assert(section_inner(mid, "mode"@) =~= section_inner(base, "mode"@));
        assert(section_inner(ms@, "agent"@) =~= section_inner(mid, "agent"@));
        assert forall|k: Seq<char>|
            k != "general"@ && k != "build"@ && k != "plan"@ && k != "explore"@ implies obj_lookup(
            section_inner(ms@, "agent"@),
            k,
        ) == obj_lookup(section_inner(base, "agent"@), k) by {
            assert(agent_keys@[0]@ == "general"@);
            assert(agent_keys@[1]@ == "build"@);
            assert(agent_keys@[2]@ == "plan"@);
            assert(agent_keys@[3]@ == "explore"@);
            assert(forall|j: int| 0 <= j < agent_keys@.len() ==> k != agent_keys@[j]@);
        }
        assert forall|k: Seq<char>| k != "build"@ && k != "plan"@ implies obj_lookup(
            section_inner(ms@, "mode"@),
            k,
        ) == obj_lookup(section_inner(mid, "mode"@), k) by {
            assert(mode_keys@[0]@ == "build"@);
            assert(mode_keys@[1]@ == "plan"@);
            assert(forall|j: int| 0 <= j < mode_keys@.len() ==> k != mode_keys@[j]@);
        }
        reveal_strlit("agent");
        reveal_strlit("mode");
        reveal_strlit("general");
        reveal_strlit("build");
        reveal_strlit("plan");
        reveal_strlit("explore");
        assert("agent"@.len() == 5);
        assert("mode"@.len() == 4);
        assert("agent"@ != "mode"@);
        assert(obj_lookup(ms@, "agent"@) == obj_lookup(mid, "agent"@));
        assert(agent_keys@[0]@ == "general"@);
        assert(agent_keys@[1]@ == "build"@);
        assert(agent_keys@[2]@ == "plan"@);
        assert(agent_keys@[3]@ == "explore"@);
        assert(mode_keys@[0]@ == "build"@);
        assert(mode_keys@[1]@ == "plan"@);
        assert(section_granted(ms@, "agent"@, "general"@));
        assert(section_granted(ms@, "agent"@, "build"@));
        assert(section_granted(ms@, "agent"@, "plan"@));
        assert(section_granted(ms@, "agent"@, "explore"@));
        assert(section_granted(ms@, "mode"@, "build"@));
        assert(section_granted(ms@, "mode"@, "plan"@));
    }
    JsonNode::Obj(ms)
}

/// The configuration injected when the user has none: only the granted agent
/// and mode entries.
pub fn full_access_template() -> (r: JsonNode)
    ensures
        r matches JsonNode::Obj(ms) && section_granted(ms@, "agent"@, "general"@)
            && section_granted(ms@, "agent"@, "build"@) && section_granted(ms@, "agent"@, "plan"@)
            && section_granted(ms@, "agent"@, "explore"@) && section_granted(ms@, "mode"@, "build"@)
            && section_granted(ms@, "mode"@, "plan"@),
{
    merge_permissions(JsonNode::Null)
}

/// The configuration files the OpenCode tool may read, given the relevant
/// environment values: an explicit file, a configuration directory, the XDG
/// base, two well-known places under the home directory, and the roaming
/// application-data directory where the host has one.
pub open spec fn candidate_paths_spec(
    cfg: Option<Seq<char>>,
    cfg_dir: Option<Seq<char>>,
    xdg: Option<Seq<char>>,
    home: Option<Seq<char>>,
    appdata: Option<Seq<char>>,
) -> Seq<Seq<char>> {
    (match cfg {
        Some(p) => seq![p],
        None => Seq::empty(),
    }) + (match cfg_dir {
        Some(d) => seq![d + "/config.json"@],
        None => Seq::empty(),
    }) + (match xdg {
        Some(x) => seq![x + "/opencode/config.json"@],
        None => Seq::empty(),
    }) + (match home {
        Some(h) => seq![h + "/.config/opencode/config.json"@, h + "/.opencode/config.json"@],
        None => Seq::empty(),
    }) + (match appdata {
        Some(a) => seq![a + "/opencode/config.json"@],
        None => Seq::empty(),
    })
}

/// Build the list of configuration files to try, in order. `home` is the
/// home directory (or the user-profile directory where the host names it
/// so); `appdata` is the roaming application-data directory on the host that
/// has one, and nothing elsewhere.
pub fn config_candidate_paths(
    cfg: Option<&str>,
    cfg_dir: Option<&str>,
    xdg: Option<&str>,
    home: Option<&str>,
    appdata: Option<&str>,
) -> (r: Vec<String>)
    ensures
        args_view(r) == candidate_paths_spec(
            match cfg {
                Some(p) => Some(p@),
                None => None,
            },
            match cfg_dir {
                Some(d) => Some(d@),
                None => None,
            },
            match xdg {
                Some(x) => Some(x@),
                None => None,
            },
            match home {
                Some(h) => Some(h@),
                None => None,
            },
            match appdata {
                Some(a) => Some(a@),
                None => None,
            },
        ),
{
    let mut r: Vec<String> = Vec::new();
    if let Some(p) = cfg {
        r.push(p.to_owned());
    }
    if let Some(d) = cfg_dir {
        let mut s = d.to_owned();
        s.append("/config.json");
        r.push(s);
    }
    if let Some(x) = xdg {
        let mut s = x.to_owned();
        s.append("/opencode/config.json");
        r.push(s);
    }
    if let Some(h) = home {
        let mut s = h.to_owned();
        s.append("/.config/opencode/config.json");
        r.push(s);
        let mut s2 = h.to_owned();
        s2.append("/.opencode/config.json");
        r.push(s2);
    }
    if let Some(a) = appdata {
        let mut s = a.to_owned();
        s.append("/opencode/config.json");
        r.push(s);
    }
    proof {
        assert(args_view(r) =~= candidate_paths_spec(
            match cfg {
                Some(p) => Some(p@),
                None => None,
            },
            match cfg_dir {
                Some(d) => Some(d@),
                None => None,
            },
            match xdg {
                Some(x) => Some(x@),
                None => None,
            },
            match home {
                Some(h) => Some(h@),
                None => None,
            },
            match appdata {
                Some(a) => Some(a@),
                None => None,
            },
        ));
    }
    r
}

} // verus!
