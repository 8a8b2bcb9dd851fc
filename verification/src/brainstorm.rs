//! The brainstorming helper's data and text handling: the structured response
//! an agent is asked to produce, extraction of a JSON payload from a
//! markdown-framed answer, language detection for the fallback texts, and the
//! prompt the helper sends.
use vstd::prelude::*;

use crate::json::{parse_json, json_doc_of, JsonNode};
use crate::text::{spec_contains, spec_find, spec_rfind_char, str_contains, find_sub, rfind_char,
    take_chars, trim_spec, trim_str};

verus! {

/// A structured brainstorm reply: a question with optional choices, or the
/// completed task prompt.
#[derive(Debug, PartialEq)]
pub struct AiBrainstormResponse {
    pub question: String,
    pub description: Option<String>,
    pub options: Vec<QuestionOption>,
    pub multi_select: bool,
    pub allow_other: bool,
    pub is_complete: bool,
    pub generated_prompt: Option<String>,
}

/// One selectable option of a brainstorm question.
#[derive(Debug, PartialEq)]
pub struct QuestionOption {
    pub label: String,
    pub description: Option<String>,
    pub value: String,
}

/// One turn of the brainstorm conversation.
#[derive(Debug, PartialEq)]
pub struct ConversationMessage {
    pub role: String,
    pub content: String,
}

/// The mathematical value of a `QuestionOption`.
#[verifier::ext_equal]
pub struct QuestionOptionModel {
    pub label: Seq<char>,
    pub description: Option<Seq<char>>,
    pub value: Seq<char>,
}

/// The mathematical value of an `AiBrainstormResponse`.
#[verifier::ext_equal]
pub struct AiBrainstormResponseModel {
    pub question: Seq<char>,
    pub description: Option<Seq<char>>,
    pub options: Seq<QuestionOptionModel>,
    pub multi_select: bool,
    pub allow_other: bool,
    pub is_complete: bool,
    pub generated_prompt: Option<Seq<char>>,
}

pub open spec fn opt_str_view(o: Option<String>) -> Option<Seq<char>> {
    match o {
        Some(s) => Some(s@),
        None => None,
    }
}

impl View for QuestionOption {
    type V = QuestionOptionModel;

    open spec fn view(&self) -> QuestionOptionModel {
        QuestionOptionModel {
            label: self.label@,
            description: opt_str_view(self.description),
            value: self.value@,
        }
    }
}

impl View for AiBrainstormResponse {
    type V = AiBrainstormResponseModel;

    open spec fn view(&self) -> AiBrainstormResponseModel {
        AiBrainstormResponseModel {
            question: self.question@,
            description: opt_str_view(self.description),
            options: self.options@.map_values(|o: QuestionOption| o@),
            multi_select: self.multi_select,
            allow_other: self.allow_other,
            is_complete: self.is_complete,
            generated_prompt: opt_str_view(self.generated_prompt),
        }
    }
}

/// The mathematical value of a `ConversationMessage`.
#[verifier::ext_equal]
pub struct ConversationMessageModel {
    pub role: Seq<char>,
    pub content: Seq<char>,
}

impl View for ConversationMessage {
    type V = ConversationMessageModel;

    open spec fn view(&self) -> ConversationMessageModel {
        ConversationMessageModel { role: self.role@, content: self.content@ }
    }
}

// ---------------------------------------------------------------------------
// Extracting a JSON payload from a markdown-framed answer.
// ---------------------------------------------------------------------------
/// The payload of a fenced block opened by "```json", when one is closed.
pub open spec fn json_fence_block(t: Seq<char>) -> Option<Seq<char>> {
    match spec_find(t, "```json"@) {
        Some(s) => match spec_find(t.skip(s + 7), "```"@) {
            Some(e) => Some(trim_spec(t.subrange(s + 7, s + 7 + e))),
            None => None,
        },
        None => None,
    }
}

/// The payload of the first fenced block, its opening line's language marker
/// skipped, when the block is closed.
pub open spec fn fence_block(t: Seq<char>) -> Option<Seq<char>> {
    match spec_find(t, "```"@) {
        Some(s) => {
            let js = match spec_find(t.skip(s + 3), "\n"@) {
                Some(nl) => s + 3 + nl + 1,
                None => s + 3,
            };
            match spec_find(t.skip(js), "```"@) {
                Some(e) => Some(trim_spec(t.subrange(js, js + e))),
                None => None,
            }
        },
        None => None,
    }
}

/// The slice from the first opening brace to the last closing brace, when
/// both exist in that order.
pub open spec fn brace_block(t: Seq<char>) -> Option<Seq<char>> {
    match spec_find(t, "{"@) {
        Some(s) => match spec_rfind_char(t, '}') {
            Some(e) => if s <= e {
                Some(t.subrange(s, e + 1))
            } else {
                None
            },
            None => None,
        },
        None => None,
    }
}

/// Where a JSON payload is looked for in an answer: a "```json" fence, then
/// any fence, then a raw brace-delimited slice, first hit wins; the answer is
/// trimmed first.
pub open spec fn extracted_json(output: Seq<char>) -> Option<Seq<char>> {
    let t = trim_spec(output);
    if json_fence_block(t) is Some {
        json_fence_block(t)
    } else if fence_block(t) is Some {
        fence_block(t)
    } else {
        brace_block(t)
    }
}

/// Extract the JSON payload of `output` (fenced block or brace-delimited
/// slice); the error carries the whole answer.
pub fn extract_json(output: &str) -> (r: Result<String, String>)
    ensures
        match r {
            Ok(s) => extracted_json(output@) == Some(s@),
            Err(e) => extracted_json(output@) is None && e@ == "No JSON found in output: "@
                + output@,
        },
{
    proof {
        reveal_strlit("```json");
        reveal_strlit("```");
        reveal_strlit("\n");
        reveal_strlit("{");
    }
    let t = trim_str(output);
    let t_len = t.unicode_len();
    if let Some(s) = find_sub(t, "```json") {
        let js = s + 7;
        let rest = t.substring_char(js, t_len);
        proof {
            assert(rest@ =~= t@.skip(js as int));
        }
        if let Some(e) = find_sub(rest, "```") {
            let inner = t.substring_char(js, js + e);
            proof {
                assert(inner@ =~= t@.subrange(js as int, js + e));
            }
            return Ok(trim_str(inner).to_owned());
        }
    }
    if let Some(s) = find_sub(t, "```") {
        let bs = s + 3;
        let after = t.substring_char(bs, t_len);
        proof {
            assert(after@ =~= t@.skip(bs as int));
        }
        let js: usize = match find_sub(after, "\n") {
            Some(nl) => bs + nl + 1,
            None => bs,
        };
        let rest = t.substring_char(js, t_len);
        proof {
            assert(rest@ =~= t@.skip(js as int));
        }
        if let Some(e) = find_sub(rest, "```") {
            let inner = t.substring_char(js, js + e);
            proof {
                assert(inner@ =~= t@.subrange(js as int, js + e));
            }
            return Ok(trim_str(inner).to_owned());
        }
    }
    if let Some(s) = find_sub(t, "{") {
        if let Some(e) = rfind_char(t, '}') {
            if s <= e {
                let inner = t.substring_char(s, e + 1);
                return Ok(inner.to_owned());
            }
        }
    }
    let mut msg = "No JSON found in output: ".to_owned();
    msg.append(output);
    Err(msg)
}

// ---------------------------------------------------------------------------
// Language detection for the fallback texts.
// ---------------------------------------------------------------------------
/// The language a text is written in, as far as its script shows it.
#[derive(Clone, Copy, Debug, PartialEq, Eq, Structural)]
pub enum DetectedLanguage {
    Zh,
    Ja,
    Ko,
    Other,
}

/// A kana character (hiragana, katakana, or katakana phonetic extensions).
pub open spec fn is_kana(c: char) -> bool {
    (0x3040 <= c as u32 && c as u32 <= 0x309F) || (0x30A0 <= c as u32 && c as u32 <= 0x30FF) || (
    0x31F0 <= c as u32 && c as u32 <= 0x31FF)
}

/// A hangul syllable.
pub open spec fn is_hangul(c: char) -> bool {
    0xAC00 <= c as u32 && c as u32 <= 0xD7AF
}

/// A CJK unified ideograph (base block or extension A).
pub open spec fn is_cjk(c: char) -> bool {
    (0x4E00 <= c as u32 && c as u32 <= 0x9FFF) || (0x3400 <= c as u32 && c as u32 <= 0x4DBF)
}

/// Does `input` contain a kana character?
pub fn contains_kana(input: &str) -> (b: bool)
    ensures
        b == exists|i: int| 0 <= i < input@.len() && is_kana(input@[i]),
{
    let len = input.unicode_len();
    let mut i: usize = 0;
    while i < len
        invariant
            len == input@.len(),
            0 <= i <= len,
            forall|k: int| 0 <= k < i ==> !is_kana(input@[k]),
        decreases len - i,
    {
        let c = input.get_char(i) as u32;
        if (0x3040 <= c && c <= 0x309F) || (0x30A0 <= c && c <= 0x30FF) || (0x31F0 <= c && c
            <= 0x31FF) {
            return true;
        }
        i = i + 1;
    }
    false
}

/// Does `input` contain a hangul syllable?
pub fn contains_hangul(input: &str) -> (b: bool)
    ensures
        b == exists|i: int| 0 <= i < input@.len() && is_hangul(input@[i]),
{
    let len = input.unicode_len();
    let mut i: usize = 0;
    while i < len
        invariant
            len == input@.len(),
            0 <= i <= len,
            forall|k: int| 0 <= k < i ==> !is_hangul(input@[k]),
        decreases len - i,
    {
        let c = input.get_char(i) as u32;
        if 0xAC00 <= c && c <= 0xD7AF {
            return true;
        }
        i = i + 1;
    }
    false
}

/// Does `input` contain a CJK ideograph?
pub fn contains_cjk(input: &str) -> (b: bool)
    ensures
        b == exists|i: int| 0 <= i < input@.len() && is_cjk(input@[i]),
{
    let len = input.unicode_len();
    let mut i: usize = 0;
    while i < len
        invariant
            len == input@.len(),
            0 <= i <= len,
            forall|k: int| 0 <= k < i ==> !is_cjk(input@[k]),
        decreases len - i,
    {
        let c = input.get_char(i) as u32;
        if (0x4E00 <= c && c <= 0x9FFF) || (0x3400 <= c && c <= 0x4DBF) {
            return true;
        }
        i = i + 1;
    }
    false
}

/// The language of `s`: hangul beats kana beats ideographs.
pub open spec fn spec_detect_language(s: Seq<char>) -> DetectedLanguage {
    if exists|i: int| 0 <= i < s.len() && is_hangul(s[i]) {
        DetectedLanguage::Ko
    } else if exists|i: int| 0 <= i < s.len() && is_kana(s[i]) {
        DetectedLanguage::Ja
    } else if exists|i: int| 0 <= i < s.len() && is_cjk(s[i]) {
        DetectedLanguage::Zh
    } else {
        DetectedLanguage::Other
    }
}

/// Detect the language of `input` from its script.
pub fn detect_language(input: &str) -> (r: DetectedLanguage)
    ensures
        r == spec_detect_language(input@),
{
    if contains_hangul(input) {
        DetectedLanguage::Ko
    } else if contains_kana(input) {
        DetectedLanguage::Ja
    } else if contains_cjk(input) {
        DetectedLanguage::Zh
    } else {
        DetectedLanguage::Other
    }
}

} // verus!

verus! {

// ---------------------------------------------------------------------------
// Mapping a JSON document to a structured brainstorm response.
// ---------------------------------------------------------------------------
/// The boolean member named `key`, when `v` is an object that has one.
pub open spec fn spec_get_bool(v: JsonNode, key: Seq<char>) -> Option<bool> {
    match v.spec_get(key) {
        Some(JsonNode::Bool(b)) => Some(b),
        _ => None,
    }
}

/// Look up the member named `key` and view it as a boolean.
pub fn get_bool(v: &JsonNode, key: &str) -> (r: Option<bool>)
    ensures
        r == spec_get_bool(*v, key@),
{
    match v.get(key) {
        Some(n) => match n {
            JsonNode::Bool(b) => Some(*b),
            _ => None,
        },
        None => None,
    }
}

/// One option as read from a JSON element: `label` and `value` must be
/// strings, `description` is kept when it is one.
pub open spec fn option_from_json(n: JsonNode) -> Option<QuestionOptionModel> {
    match (n.spec_get_str("label"@), n.spec_get_str("value"@)) {
        (Some(l), Some(v)) => Some(
            QuestionOptionModel { label: l, description: n.spec_get_str("description"@), value: v },
        ),
        _ => None,
    }
}

/// All options as read from the elements of a JSON array; nothing when any
/// element is malformed.
pub open spec fn options_from_json(items: Seq<JsonNode>) -> Option<Seq<QuestionOptionModel>>
    decreases items.len(),
{
    if items.len() == 0 {
        Some(Seq::empty())
    } else {
        match (option_from_json(items[0]), options_from_json(items.skip(1))) {
            (Some(h), Some(tl)) => Some(seq![h] + tl),
            _ => None,
        }
    }
}

/// A structured response as read from a JSON document: `question` must be a
/// string, `options` an array of well-formed options, and the three switches
/// booleans; `description` and `generatedPrompt` are kept when they are
/// strings.
pub open spec fn response_from_json(v: JsonNode) -> Option<AiBrainstormResponseModel> {
    match (
        v.spec_get_str("question"@),
        v.spec_get("options"@),
        spec_get_bool(v, "multiSelect"@),
        spec_get_bool(v, "allowOther"@),
        spec_get_bool(v, "isComplete"@),
    ) {
        (Some(q), Some(JsonNode::Arr(items)), Some(ms), Some(ao), Some(ic)) => match
        options_from_json(items@) {
            Some(os) => Some(
                AiBrainstormResponseModel {
                    question: q,
                    description: v.spec_get_str("description"@),
                    options: os,
                    multi_select: ms,
                    allow_other: ao,
                    is_complete: ic,
                    generated_prompt: v.spec_get_str("generatedPrompt"@),
                },
            ),
            None => None,
        },
        _ => None,
    }
}

proof fn lemma_options_push(items: Seq<JsonNode>, x: JsonNode)
    ensures
        options_from_json(items.push(x)) == (match (
            options_from_json(items),
            option_from_json(x),
        ) {
            (Some(os), Some(o)) => Some(os.push(o)),
            _ => None::<Seq<QuestionOptionModel>>,
        }),
    decreases items.len(),
{
    if items.len() == 0 {
        assert(items.push(x)[0] == x);
        assert(items.push(x).skip(1) =~= Seq::<JsonNode>::empty());
        assert(options_from_json(Seq::<JsonNode>::empty()) == Some(
            Seq::<QuestionOptionModel>::empty(),
        ));
        if option_from_json(x) is Some {
            assert(seq![option_from_json(x)->Some_0] + Seq::<QuestionOptionModel>::empty() =~= Seq::<
                QuestionOptionModel,
            >::empty().push(option_from_json(x)->Some_0));
        }
    } else {
        assert(items.push(x)[0] == items[0]);
        assert(items.push(x).skip(1) =~= items.skip(1).push(x));
        lemma_options_push(items.skip(1), x);
        if option_from_json(items[0]) is Some && options_from_json(items.skip(1)) is Some
            && option_from_json(x) is Some {
            let h = option_from_json(items[0])->Some_0;
            let tl = options_from_json(items.skip(1))->Some_0;
            let o = option_from_json(x)->Some_0;
            assert(seq![h] + tl.push(o) =~= (seq![h] + tl).push(o));
        }
    }
}

/// Read one option from a JSON element.
pub fn read_option(n: &JsonNode) -> (r: Option<QuestionOption>)
    ensures
        match r {
            Some(o) => option_from_json(*n) == Some(o@),
            None => option_from_json(*n) is None,
        },
{
    let label = match n.get_str("label") {
        Some(l) => l.clone(),
        None => {
            return None;
        },
    };
    let value = match n.get_str("value") {
        Some(v) => v.clone(),
        None => {
            return None;
        },
    };
    let description = match n.get_str("description") {
        Some(d) => Some(d.clone()),
        None => None,
    };
    let o = QuestionOption { label, description, value };
    proof {
        assert(o@ =~= option_from_json(*n)->Some_0);
    }
    Some(o)
}

/// Read a structured response from a JSON document.
#[verifier::loop_isolation(false)]
pub fn response_from_doc(v: &JsonNode) -> (r: Option<AiBrainstormResponse>)
    ensures
        match r {
            Some(resp) => response_from_json(*v) == Some(resp@),
            None => response_from_json(*v) is None,
        },
{
    let question = match v.get_str("question") {
        Some(q) => q.clone(),
        None => {
            return None;
        },
    };
    let items = match v.get("options") {
        Some(n) => match n {
            JsonNode::Arr(items) => items,
            _ => {
                return None;
            },
        },
        None => {
            return None;
        },
    };
    let multi_select = match get_bool(v, "multiSelect") {
        Some(b) => b,
        None => {
            return None;
        },
    };
    let allow_other = match get_bool(v, "allowOther") {
        Some(b) => b,
        None => {
            return None;
        },
    };
    let is_complete = match get_bool(v, "isComplete") {
        Some(b) => b,
        None => {
            return None;
        },
    };
    let mut options: Vec<QuestionOption> = Vec::new();
    let mut i: usize = 0;
    proof {
        assert(items@.take(0) =~= Seq::<JsonNode>::empty());
        assert(options@.map_values(|o: QuestionOption| o@) =~= Seq::<
            QuestionOptionModel,
        >::empty());
    }
    while i < items.len()
        invariant
            0 <= i <= items@.len(),
            options_from_json(items@.take(i as int)) == Some(
                options@.map_values(|o: QuestionOption| o@),
            ),
        decreases items@.len() - i,
    {
        let o = match read_option(&items[i]) {
            Some(o) => o,
            None => {
                proof {
                    lemma_options_prefix_none(items@, i as int);
                }
                return None;
            },
        };
        options.push(o);
        proof {
            assert(items@.take(i + 1) =~= items@.take(i as int).push(items@[i as int]));
            lemma_options_push(items@.take(i as int), items@[i as int]);
            assert(options@.map_values(|o: QuestionOption| o@) =~= options_from_json(
                items@.take(i + 1),
            )->Some_0);
        }
        i = i + 1;
    }
    proof {
        assert(items@.take(items@.len() as int) =~= items@);
    }
    let description = match v.get_str("description") {
        Some(d) => Some(d.clone()),
        None => None,
    };
    let generated_prompt = match v.get_str("generatedPrompt") {
        Some(g) => Some(g.clone()),
        None => None,
    };
    let resp = AiBrainstormResponse {
        question,
        description,
        options,
        multi_select,
        allow_other,
        is_complete,
        generated_prompt,
    };
    proof {
        assert(resp@ =~= response_from_json(*v)->Some_0);
    }
    Some(resp)
}

/// A malformed element anywhere in the array spoils the whole option list.
proof fn lemma_options_prefix_none(items: Seq<JsonNode>, i: int)
    requires
        0 <= i < items.len(),
        option_from_json(items[i]) is None,
    ensures
        options_from_json(items) is None,
    decreases i,
{
    if i == 0 {
    } else {
        lemma_options_prefix_none(items.skip(1), i - 1);
    }
}

} // verus!

use crate::adapters::args_view;
use crate::text::truncate_chars;

verus! {

// ---------------------------------------------------------------------------
// Parsing an agent's brainstorm answer.
// ---------------------------------------------------------------------------
/// The fallback question text announcing completion, by language.
pub open spec fn completion_question(lang: DetectedLanguage) -> Seq<char> {
    match lang {
        DetectedLanguage::Zh => "需求收集完成"@,
        DetectedLanguage::Ja => "要件確定"@,
        DetectedLanguage::Ko => "요구사항 완료"@,
        DetectedLanguage::Other => "Requirements complete"@,
    }
}

/// The fallback description accompanying completion, by language.
pub open spec fn completion_description(lang: DetectedLanguage) -> Seq<char> {
    match lang {
        DetectedLanguage::Zh => "已生成任务 prompt"@,
        DetectedLanguage::Ja => "タスクの prompt を生成しました"@,
        DetectedLanguage::Ko => "작업 prompt가 생성되었습니다"@,
        DetectedLanguage::Other => "Generated task prompt"@,
    }
}

/// The error reported when a payload was found but did not parse as a
/// structured response.
pub open spec fn parse_failure_message(js: Seq<char>) -> Seq<char> {
    "Failed to parse AI response. Raw: "@ + js
}

/// The response built from an answer without a JSON payload: the completion
/// sentinel makes it a completed response carrying the whole answer as the
/// generated prompt, in the answer's language; anything else becomes a plain
/// question.
pub open spec fn fallback_response(output: Seq<char>) -> AiBrainstormResponseModel {
    let t = trim_spec(output);
    if spec_contains(t, "<done>COMPLETE</done>"@) {
        let lang = spec_detect_language(t);
        AiBrainstormResponseModel {
            question: completion_question(lang),
            description: Some(completion_description(lang)),
            options: Seq::empty(),
            multi_select: false,
            allow_other: false,
            is_complete: true,
            generated_prompt: Some(t),
        }
    } else {
        AiBrainstormResponseModel {
            question: t,
            description: None,
            options: Seq::empty(),
            multi_select: false,
            allow_other: false,
            is_complete: false,
            generated_prompt: None,
        }
    }
}

/// What parsing an answer yields: the structured response of its JSON
/// payload, an error when the payload does not parse, and the fallback when
/// no payload is found.
pub open spec fn ai_response_spec(output: Seq<char>) -> Result<
    AiBrainstormResponseModel,
    Seq<char>,
> {
    match extracted_json(output) {
        Some(js) => match json_doc_of(js) {
            Some(doc) => match response_from_json(doc) {
                Some(m) => Ok(m),
                None => Err(parse_failure_message(js)),
            },
            None => Err(parse_failure_message(js)),
        },
        None => Ok(fallback_response(output)),
    }
}

/// Parse an agent's brainstorm answer into a structured response.
pub fn parse_ai_response(output: &str) -> (r: Result<AiBrainstormResponse, String>)
    ensures
        match r {
            Ok(a) => ai_response_spec(output@) == Ok::<AiBrainstormResponseModel, Seq<char>>(a@),
            Err(e) => ai_response_spec(output@) == Err::<AiBrainstormResponseModel, Seq<char>>(e@),
        },
{
    match extract_json(output) {
        Ok(js) => {
            match parse_json(js.as_str()) {
                Some(doc) => match response_from_doc(&doc) {
                    Some(resp) => Ok(resp),
                    None => {
                        let mut msg = "Failed to parse AI response. Raw: ".to_owned();
                        msg.append(js.as_str());
                        Err(msg)
                    },
                },
                None => {
                    let mut msg = "Failed to parse AI response. Raw: ".to_owned();
                    msg.append(js.as_str());
                    Err(msg)
                },
            }
        },
        Err(_) => {
            let t = trim_str(output);
            if str_contains(t, "<done>COMPLETE</done>") {
                let lang = detect_language(t);
                let (question, description): (&'static str, &'static str) = match lang {
                    DetectedLanguage::Zh => ("需求收集完成", "已生成任务 prompt"),
                    DetectedLanguage::Ja => ("要件確定", "タスクの prompt を生成しました"),
                    DetectedLanguage::Ko => ("요구사항 완료", "작업 prompt가 생성되었습니다"),
                    DetectedLanguage::Other => ("Requirements complete", "Generated task prompt"),
                };
                let resp = AiBrainstormResponse {
                    question: question.to_owned(),
                    description: Some(description.to_owned()),
                    options: Vec::new(),
                    multi_select: false,
                    allow_other: false,
                    is_complete: true,
                    generated_prompt: Some(t.to_owned()),
                };
                proof {
                    assert(resp@ =~= fallback_response(output@));
                }
                Ok(resp)
            } else {
                let resp = AiBrainstormResponse {
                    question: t.to_owned(),
                    description: None,
                    options: Vec::new(),
                    multi_select: false,
                    allow_other: false,
                    is_complete: false,
                    generated_prompt: None,
                };
                proof {
                    assert(resp@ =~= fallback_response(output@));
                }
                Ok(resp)
            }
        },
    }
}

// ---------------------------------------------------------------------------
// Titles and prompts.
// ---------------------------------------------------------------------------
/// A project title cut from a message: the message itself when short enough,
/// else its first `max` characters with an ellipsis.
pub open spec fn title_of(s: Seq<char>, max: int) -> Seq<char> {
    if s.len() <= max {
        s
    } else {
        take_chars(s, max) + "…"@
    }
}

/// Cut a message down to a short project title.
pub fn truncate_to_title(s: &str, max_chars: usize) -> (r: String)
    ensures
        r@ == title_of(s@, max_chars as int),
{
    let len = s.unicode_len();
    if len <= max_chars {
        s.to_owned()
    } else {
        let mut r = truncate_chars(s, max_chars).to_owned();
        r.append("…");
        r
    }
}

/// One conversation turn as it appears in the prompt's transcript.
pub open spec fn message_block(m: ConversationMessageModel) -> Seq<char> {
    (if m.role == "user"@ {
        "User: "@ + m.content
    } else {
        "Assistant: "@ + m.content
    }) + "\n\n"@
}

/// The whole transcript, one block per turn.
pub open spec fn context_of(ms: Seq<ConversationMessageModel>) -> Seq<char>
    decreases ms.len(),
{
    if ms.len() == 0 {
        Seq::empty()
    } else {
        message_block(ms[0]) + context_of(ms.skip(1))
    }
}

proof fn lemma_context_push(ms: Seq<ConversationMessageModel>, m: ConversationMessageModel)
    ensures
        context_of(ms.push(m)) == context_of(ms) + message_block(m),
    decreases ms.len(),
{
    if ms.len() == 0 {
        assert(ms.push(m)[0] == m);
        assert(ms.push(m).skip(1) =~= Seq::<ConversationMessageModel>::empty());
        assert(context_of(Seq::<ConversationMessageModel>::empty()) == Seq::<char>::empty());
        assert(context_of(ms.push(m)) =~= context_of(ms) + message_block(m));
    } else {
        assert(ms.push(m)[0] == ms[0]);
        assert(ms.push(m).skip(1) =~= ms.skip(1).push(m));
        lemma_context_push(ms.skip(1), m);
        assert(context_of(ms.push(m)) == message_block(ms[0]) + context_of(ms.skip(1).push(m)));
        assert(context_of(ms) == message_block(ms[0]) + context_of(ms.skip(1)));
        vstd::seq_lib::lemma_concat_associative(
            message_block(ms[0]),
            context_of(ms.skip(1)),
            message_block(m),
        );
        assert(context_of(ms.push(m)) =~= context_of(ms) + message_block(m));
    }
}

/// Render the conversation transcript.
#[verifier::loop_isolation(false)]
pub fn conversation_context(conversation: &Vec<ConversationMessage>) -> (s: String)
    ensures
        s@ == context_of(conversation@.map_values(|m: ConversationMessage| m@)),
{
    let ghost mms = conversation@.map_values(|m: ConversationMessage| m@);
    let mut s = String::new();
    let mut i: usize = 0;
    proof {
        assert(mms.take(0) =~= Seq::<ConversationMessageModel>::empty());
    }
    while i < conversation.len()
        invariant
            0 <= i <= conversation@.len(),
            s@ == context_of(mms.take(i as int)),
        decreases conversation@.len() - i,
    {
        let m = &conversation[i];
        if crate::text::str_eq(m.role.as_str(), "user") {
            s.append("User: ");
        } else {
            s.append("Assistant: ");
        }
        s.append(m.content.as_str());
        s.append("\n\n");
        proof {
            assert(mms.take(i + 1) =~= mms.take(i as int).push(mms[i as int]));
            lemma_context_push(mms.take(i as int), mms[i as int]);
            assert(s@ =~= context_of(mms.take(i + 1)));
        }
        i = i + 1;
    }
    proof {
        assert(mms.take(mms.len() as int) =~= mms);
    }
    s
}

/// The prompt the brainstorm helper sends: the system preamble, the
/// transcript, and the instruction to answer with JSON.
pub open spec fn brainstorm_prompt(system: Seq<char>, ms: Seq<ConversationMessageModel>) -> Seq<
    char,
> {
    system + "\n\n## Conversation\n\n"@ + context_of(ms)
        + "\n\nBased on the conversation above, output the next question JSON (or the final prompt). Output JSON only."@
}

/// Build the prompt the brainstorm helper sends.
pub fn build_brainstorm_prompt(system: &str, conversation: &Vec<ConversationMessage>) -> (s:
    String)
    ensures
        s@ == brainstorm_prompt(system@, conversation@.map_values(|m: ConversationMessage| m@)),
{
    let mut s = system.to_owned();
    s.append("\n\n## Conversation\n\n");
    s.append(conversation_context(conversation).as_str());
    s.append(
        "\n\nBased on the conversation above, output the next question JSON (or the final prompt). Output JSON only.",
    );
    s
}

/// The argument vector of the plain-text agent call the brainstorm helper
/// makes.
pub open spec fn brainstorm_cli_args_spec(prompt: Seq<char>) -> Seq<Seq<char>> {
    seq![
        "--print"@,
        "--dangerously-skip-permissions"@,
        "--permission-mode"@,
        "bypassPermissions"@,
        prompt,
        "--output-format"@,
        "text"@,
    ]
}

/// The arguments of the plain-text agent call the brainstorm helper makes.
pub fn brainstorm_cli_args(prompt: &str) -> (args: Vec<String>)
    ensures
        args_view(args) == brainstorm_cli_args_spec(prompt@),
{
    let mut args: Vec<String> = Vec::new();
    args.push("--print".to_owned());
    args.push("--dangerously-skip-permissions".to_owned());
    args.push("--permission-mode".to_owned());
    args.push("bypassPermissions".to_owned());
    args.push(prompt.to_owned());
    args.push("--output-format".to_owned());
    args.push("text".to_owned());
    proof {
        assert(args_view(args) =~= brainstorm_cli_args_spec(prompt@));
    }
    args
}

} // verus!

verus! {

/// The system preamble of every brainstorm exchange: the rules the agent is
/// given before the conversation transcript.
pub fn brainstorm_system_prompt() -> &'static str {
    r#"You are a thought partner for programming tasks, helping users explore and clarify what they want to accomplish.

## Language Rule
IMPORTANT: Detect and match the user's language automatically. If the user writes in Chinese, respond in Chinese. If in English, respond in English. If in Japanese, respond in Japanese. Always mirror the user's language.

## Core Principles

1. **Collaborative Dialogue**: You are a thought partner, not a questionnaire. Explore together with the user, don't just mechanically collect information.
2. **Intellectual Curiosity**: Show genuine interest in the user's ideas, ask exploratory questions.
3. **Creative Challenge**: Push the user to think deeper, challenge assumptions, explore "what if..." scenarios.
4. **Structured yet Flexible**: Guide the conversation with purpose, but adapt dynamically based on the user's thinking.

## Workflow

### Phase 1: Understanding Context
Use open-ended questions to understand what the user is working on:
- "What problem are you trying to solve?"
- "What excites you most about this project?"
- "What's unsatisfying about existing solutions?"

### Phase 2: Divergent Exploration
Help the user think from multiple angles:
- Challenge assumptions: "What if you did it the opposite way?"
- Cross-domain analogies: "How do other fields solve similar problems?"
- Constraint thinking: "What if this limitation didn't exist?"

### Phase 3: Focus on Solution
When enough information is gathered, help the user focus:
- Confirm core features
- Confirm technical choices
- Confirm success criteria
- Confirm testing & validation plan (must ask at least one question)

### Phase 4: Generate Prompt
Synthesize all information into a complete task description.

## Output Format

Output strictly in JSON format, nothing else.

### Question with options (for clear choices):
```json
{
  "question": "Exploratory question",
  "description": "Optional description or your observation",
  "options": [
    {"label": "Option", "description": "Explanation", "value": "value"}
  ],
  "multiSelect": false,
  "allowOther": true,
  "isComplete": false
}
```

### Multi-select question (for features/characteristics):
```json
{
  "question": "Which features would you like?",
  "description": "You can select multiple",
  "options": [...],
  "multiSelect": true,
  "allowOther": true,
  "isComplete": false
}
```

### Open-ended question (no options):
```json
{
  "question": "Open-ended question",
  "description": "Guidance or context",
  "options": [],
  "multiSelect": false,
  "allowOther": false,
  "isComplete": false
}
```

### Completion:
```json
{
  "question": "Great, I understand your requirements",
  "description": "Let me summarize...",
  "options": [],
  "multiSelect": false,
  "allowOther": false,
  "isComplete": true,
  "generatedPrompt": "Complete task description..."
}
```

## Question Design Tips

### Good questions (exploratory, open-ended):
- "What problem are you trying to solve? What are the pain points with existing solutions?"
- "Who is this for? What do they care about most?"
- "If you could only implement one core feature, what would it be?"
- "Is there a product you really like that we can reference?"
- "When it's done, how will you know it's successful?"

### Questions to avoid (mechanical, closed):
- "What type of task is this?" ❌
- "What tech stack?" ❌ (unless user mentions technical choices)
- "Do you need tests?" ❌ (too early for details; ask later with context)

### When to use multi-select:
- Feature lists: "Which features would you like to include?"
- Pain point analysis: "What problems does the current solution have?"
- Target users: "Who are the main user groups?"
- Technical features: "What characteristics do you need to support?"

## Conversation Example

User: "I want to make a snake game"

Good response:
```json
{
  "question": "Interesting! What would make your snake game different?",
  "description": "Are you going for a classic recreation, or do you have unique ideas?",
  "options": [
    {"label": "Classic recreation", "description": "Faithfully reproduce traditional gameplay", "value": "classic"},
    {"label": "Add new mechanics", "description": "Innovate on the classic foundation", "value": "innovative"},
    {"label": "Complete redesign", "description": "Keep the core concept but innovate boldly", "value": "redesign"}
  ],
  "multiSelect": false,
  "allowOther": true,
  "isComplete": false
}
```

## Requirements for Generated Prompt

The final prompt should include:
1. **Task Overview**: One sentence description
2. **Background & Goals**: Why do this, what effect to achieve
3. **Core Features**: List of must-have features
4. **Technical Requirements**: Tech stack, constraints
5. **Testing & Validation**:
   - **Test Plan**: Must include at least unit tests; prefer E2E if applicable
   - **Test Commands**: Exact commands to run
   - **Manual Checks**: Only if automation is not feasible, with reasons
6. **Success Criteria**: Must include tests passing (or explicit exceptions)
7. **Completion Signal**: `<done>COMPLETE</done>`

## Mandatory Testing Rule
Before completing, you MUST ask about testing/validation. If the user is unsure, propose a default plan:
- At minimum: unit tests covering key logic
- If there is UI or end-to-end flow: add a minimal E2E smoke test

Remember: Match the user's language in all your responses!"#
}

} // verus!
