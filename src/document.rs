//! A JSON value as plain data, and the strict parse of a descriptor from it.
use vstd::prelude::*;
use vstd::string::*;
use crate::descriptor::{CommandRule, CommandSpec, Descriptor, InputPrompt, SetupInfo, strings_view};
use crate::pattern::{Pattern, pattern_compiles};

verus! {

/// A JSON value. Numbers keep their textual form; objects keep their fields
/// in order.
pub enum Json {
    Null,
    Bool(bool),
    Number(String),
    Str(String),
    Array(Vec<Json>),
    Object(Vec<JsonField>),
}

pub struct JsonField {
    pub key: String,
    pub value: Json,
}

/// Why a descriptor was refused.
#[derive(PartialEq, Eq, Structural, Debug, Clone, Copy)]
pub enum DescriptorError {
    /// The descriptor, or a part that must be an object, is not one.
    NotAnObject,
    /// A field has the wrong type, or a required field is missing.
    BadField,
    /// A `commands` key is not a pattern the regex engine accepts.
    BadPattern,
}

/// The value of the first field named `key`.
pub open spec fn field_of(fs: Seq<JsonField>, key: Seq<char>) -> Option<Json>
    decreases fs.len(),
{
    if fs.len() == 0 {
        None
    } else if fs[0].key@ == key {
        Some(fs[0].value)
    } else {
        field_of(fs.drop_first(), key)
    }
}

/// A field that is there and not `null`.
pub open spec fn present(o: Option<Json>) -> bool {
    o matches Some(j) && !(j is Null)
}

/// An optional list of strings: absent or `null` is empty; `None` when the
/// value is neither that nor an array of strings.
pub open spec fn string_list_of(o: Option<Json>) -> Option<Seq<Seq<char>>> {
    if !present(o) {
        Some(Seq::empty())
    } else if o->Some_0 is Array && forall|i: int|
        0 <= i < o->Some_0->Array_0@.len() ==> (#[trigger] o->Some_0->Array_0@[i]) is Str {
        Some(o->Some_0->Array_0@.map_values(|x: Json| x->Str_0@))
    } else {
        None
    }
}

/// An optional string: `Some(None)` when absent or `null`, `None` when the
/// value is not a string.
pub open spec fn opt_string_of(o: Option<Json>) -> Option<Option<Seq<char>>> {
    if !present(o) {
        Some(None)
    } else if o->Some_0 is Str {
        Some(Some(o->Some_0->Str_0@))
    } else {
        None
    }
}

pub open spec fn opt_view(o: Option<String>) -> Option<Seq<char>> {
    match o {
        Some(s) => Some(s@),
        None => None,
    }
}

/// The value behind an optional reference.
pub open spec fn owned(o: Option<&Json>) -> Option<Json> {
    match o {
        Some(j) => Some(*j),
        None => None,
    }
}

/// Looks up the first field named `key`.
pub fn field<'a>(fs: &'a Vec<JsonField>, key: &str) -> (r: Option<&'a Json>)
    ensures
        owned(r) == field_of(fs@, key@),
{
    let mut i: usize = 0;
    assert(fs@.subrange(0, fs@.len() as int) =~= fs@);
    while i < fs.len()
        invariant
            i <= fs.len(),
            field_of(fs@, key@) == field_of(fs@.subrange(i as int, fs@.len() as int), key@),
        decreases fs.len() - i,
    {
        let ghost rest = fs@.subrange(i as int, fs@.len() as int);
        if fs[i].key == String::from_str(key) {
            return Some(&fs[i].value);
        }
        proof {
            assert(rest.drop_first() =~= fs@.subrange(i + 1, fs@.len() as int));
        }
        i = i + 1;
    }
    None
}

fn is_present(o: Option<&Json>) -> (r: bool)
    ensures
        r == present(owned(o)),
{
    match o {
        Some(Json::Null) => false,
        Some(_) => true,
        None => false,
    }
}

/// An optional list of strings, strictly.
pub fn string_list(o: Option<&Json>) -> (r: Option<Vec<String>>)
    ensures
        r is Some <==> string_list_of(owned(o)) is Some,
        r is Some ==> strings_view(r->Some_0@) == string_list_of(owned(o))->Some_0,
{
    let ghost og = owned(o);
    match o {
        Some(Json::Array(items)) => {
            let mut out: Vec<String> = Vec::new();
            let mut i: usize = 0;
            while i < items.len()
                invariant
                    i <= items.len(),
                    og == owned(o),
                    owned(o) == Some(Json::Array(*items)),
                    out@.len() == i,
                    forall|k: int| 0 <= k < i ==> (#[trigger] items@[k]) is Str,
                    forall|k: int| 0 <= k < i ==> (#[trigger] out@[k])@ == items@[k]->Str_0@,
                decreases items.len() - i,
            {
                match &items[i] {
                    Json::Str(s) => out.push(s.clone()),
                    _ => {
                        assert(!(items@[i as int] is Str));
                        return None;
                    },
                }
                i = i + 1;
            }
            proof {
                assert(strings_view(out@) =~= items@.map_values(|x: Json| x->Str_0@));
            }
            Some(out)
        },
        _ => if is_present(o) {
            None
        } else {
            proof {
                assert(strings_view(Seq::<String>::empty()) =~= Seq::<Seq<char>>::empty());
            }
            Some(Vec::new())
        },
    }
}

/// An optional string, strictly: `Err` when the value is not a string.
pub fn opt_string(o: Option<&Json>) -> (r: Result<Option<String>, DescriptorError>)
    ensures
        r is Ok <==> opt_string_of(owned(o)) is Some,
        r is Ok ==> opt_view(r->Ok_0) == opt_string_of(owned(o))->Some_0,
        r is Err ==> r->Err_0 == DescriptorError::BadField,
{
    match o {
        Some(Json::Str(s)) => Ok(Some(s.clone())),
        _ => if is_present(o) {
            Err(DescriptorError::BadField)
        } else {
            Ok(None)
        },
    }
}

/// A `commands` entry: its pattern text, program and arguments; `None` when
/// the key does not compile or the value is not an object with a string `cmd`
/// and a strict `args` list.
pub open spec fn rule_of(f: JsonField) -> Option<(Seq<char>, Seq<char>, Seq<Seq<char>>)> {
    if pattern_compiles(f.key@) && f.value is Object && str_field(f.value->Object_0@, "cmd"@) is Some
        && string_list_of(field_of(f.value->Object_0@, "args"@)) is Some {
        Some(
            (
                f.key@,
                str_field(f.value->Object_0@, "cmd"@)->Some_0,
                string_list_of(field_of(f.value->Object_0@, "args"@))->Some_0,
            ),
        )
    } else {
        None
    }
}

/// The text of a field that is a string.
pub open spec fn str_field(fs: Seq<JsonField>, key: Seq<char>) -> Option<Seq<char>> {
    match field_of(fs, key) {
        Some(Json::Str(s)) => Some(s@),
        _ => None,
    }
}

/// A rule holds what its entry describes.
pub open spec fn rule_fits(r: CommandRule, v: (Seq<char>, Seq<char>, Seq<Seq<char>>)) -> bool {
    r.pattern.source_view() == v.0 && r.command.program@ == v.1 && strings_view(r.command.args@) == v.2
}

fn parse_rule(f: &JsonField) -> (r: Result<CommandRule, DescriptorError>)
    ensures
        r is Ok <==> rule_of(*f) is Some,
        r is Ok ==> rule_fits(r->Ok_0, rule_of(*f)->Some_0),
        r == Err::<CommandRule, DescriptorError>(DescriptorError::BadPattern) <==> !pattern_compiles(f.key@),
{
    let pattern = match Pattern::new(f.key.as_str()) {
        Some(p) => p,
        None => return Err(DescriptorError::BadPattern),
    };
    let fs = match &f.value {
        Json::Object(fs) => fs,
        _ => return Err(DescriptorError::NotAnObject),
    };
    let program = match field(fs, "cmd") {
        Some(Json::Str(c)) => c.clone(),
        _ => return Err(DescriptorError::BadField),
    };
    let args = match string_list(field(fs, "args")) {
        Some(a) => a,
        None => return Err(DescriptorError::BadField),
    };
    Ok(CommandRule { pattern, command: CommandSpec { program, args } })
}

/// The `commands` table: `Some(None)` when absent or `null`; `None` when it is
/// not an object or one of its entries does not parse.
pub open spec fn rules_ok(o: Option<Json>) -> bool {
    !present(o) || (o->Some_0 is Object && forall|i: int|
        0 <= i < o->Some_0->Object_0@.len() ==> (#[trigger] rule_of(o->Some_0->Object_0@[i])) is Some)
}

pub open spec fn rules_fit(o: Option<Json>, r: Option<Vec<CommandRule>>) -> bool {
    if !present(o) {
        r is None
    } else {
        let es = o->Some_0->Object_0@;
        &&& r is Some
        &&& r->Some_0@.len() == es.len()
        &&& forall|i: int| 0 <= i < es.len() ==> rule_fits(#[trigger] r->Some_0@[i], rule_of(es[i])->Some_0)
    }
}

/// A `commands` object with a key that does not compile.
pub open spec fn bad_key(o: Option<Json>) -> bool {
    o matches Some(Json::Object(es)) && exists|i: int| 0 <= i < es@.len() && !pattern_compiles(#[trigger] es@[i].key@)
}

fn parse_rules(o: Option<&Json>) -> (r: Result<Option<Vec<CommandRule>>, DescriptorError>)
    ensures
        r is Ok <==> rules_ok(owned(o)),
        r is Ok ==> rules_fit(owned(o), r->Ok_0),
        r == Err::<Option<Vec<CommandRule>>, DescriptorError>(DescriptorError::BadPattern) ==> bad_key(owned(o)),
{
    match o {
        Some(Json::Object(es)) => {
            let mut rules: Vec<CommandRule> = Vec::new();
            let mut i: usize = 0;
            while i < es.len()
                invariant
                    i <= es.len(),
                    owned(o) == Some(Json::Object(*es)),
                    rules@.len() == i,
                    forall|k: int| 0 <= k < i ==> (#[trigger] rule_of(es@[k])) is Some,
                    forall|k: int| 0 <= k < i ==> rule_fits(#[trigger] rules@[k], rule_of(es@[k])->Some_0),
                decreases es.len() - i,
            {
                match parse_rule(&es[i]) {
                    Ok(rule) => rules.push(rule),
                    Err(e) => return Err(e),
                }
                i = i + 1;
            }
            Ok(Some(rules))
        },
        _ => if is_present(o) {
            Err(DescriptorError::NotAnObject)
        } else {
            Ok(None)
        },
    }
}

/// A setup dialog entry: `Some(None)` when it is not an input prompt (its
/// `type` is not the string "input"), `Some(Some(..))` with its title, label
/// and key, `None` when an input prompt lacks one of them as a string.
pub open spec fn prompt_of(j: Json) -> Option<Option<(Seq<char>, Seq<char>, Seq<char>)>> {
    if j is Object && str_field(j->Object_0@, "type"@) == Some("input"@) {
        let fs = j->Object_0@;
        if str_field(fs, "title"@) is Some && str_field(fs, "label"@) is Some && str_field(fs, "key"@) is Some {
            Some(Some((str_field(fs, "title"@)->Some_0, str_field(fs, "label"@)->Some_0, str_field(fs, "key"@)->Some_0)))
        } else {
            None
        }
    } else {
        Some(None)
    }
}

/// The input prompts of a dialog list, in order; `None` when one is malformed.
pub open spec fn prompts_of(es: Seq<Json>) -> Option<Seq<(Seq<char>, Seq<char>, Seq<char>)>>
    decreases es.len(),
{
    if es.len() == 0 {
        Some(Seq::empty())
    } else {
        match (prompts_of(es.drop_last()), prompt_of(es.last())) {
            (Some(ps), Some(Some(p))) => Some(ps.push(p)),
            (Some(ps), Some(None)) => Some(ps),
            _ => None,
        }
    }
}

pub open spec fn prompts_view(ps: Seq<InputPrompt>) -> Seq<(Seq<char>, Seq<char>, Seq<char>)> {
    ps.map_values(|p: InputPrompt| (p.title@, p.label@, p.key@))
}

fn parse_prompt(j: &Json) -> (r: Result<Option<InputPrompt>, DescriptorError>)
    ensures
        r is Ok <==> prompt_of(*j) is Some,
        r is Ok ==> (r->Ok_0 is Some <==> prompt_of(*j)->Some_0 is Some),
        r matches Ok(Some(p)) ==> (p.title@, p.label@, p.key@) == prompt_of(*j)->Some_0->Some_0,
        r is Err ==> r->Err_0 != DescriptorError::BadPattern,
{
    proof {
        reveal_strlit("input");
    }
    let fs = match j {
        Json::Object(fs) => fs,
        _ => return Ok(None),
    };
    let is_input = match field(fs, "type") {
        Some(Json::Str(t)) => *t == String::from_str("input"),
        _ => false,
    };
    if !is_input {
        return Ok(None);
    }
    let title = match field(fs, "title") {
        Some(Json::Str(x)) => x.clone(),
        _ => return Err(DescriptorError::BadField),
    };
    let label = match field(fs, "label") {
        Some(Json::Str(x)) => x.clone(),
        _ => return Err(DescriptorError::BadField),
    };
    let key = match field(fs, "key") {
        Some(Json::Str(x)) => x.clone(),
        _ => return Err(DescriptorError::BadField),
    };
    Ok(Some(InputPrompt { title, label, key }))
}

proof fn prompts_of_prefix_fails(es: Seq<Json>, i: int, n: int)
    requires
        0 <= i < n <= es.len(),
        prompt_of(es[i]) is None,
    ensures
        prompts_of(es.subrange(0, n)) is None,
    decreases n,
{
    let sub = es.subrange(0, n);
    assert(sub.drop_last() =~= es.subrange(0, n - 1));
    if n - 1 > i {
        prompts_of_prefix_fails(es, i, n - 1);
    }
}

fn parse_prompts(o: Option<&Json>) -> (r: Result<Vec<InputPrompt>, DescriptorError>)
    ensures
        r is Ok <==> (!present(owned(o)) || (owned(o)->Some_0 is Array && prompts_of(
            owned(o)->Some_0->Array_0@,
        ) is Some)),
        r is Ok && present(owned(o)) ==> prompts_view(r->Ok_0@) == prompts_of(
            owned(o)->Some_0->Array_0@,
        )->Some_0,
        r is Ok && !present(owned(o)) ==> r->Ok_0@.len() == 0,
        r is Err ==> r->Err_0 != DescriptorError::BadPattern,
{
    match o {
        Some(Json::Array(es)) => {
            let mut out: Vec<InputPrompt> = Vec::new();
            let mut i: usize = 0;
            while i < es.len()
                invariant
                    i <= es.len(),
                    owned(o) == Some(Json::Array(*es)),
                    prompts_of(es@.subrange(0, i as int)) is Some,
                    prompts_view(out@) == prompts_of(es@.subrange(0, i as int))->Some_0,
                decreases es.len() - i,
            {
                let ghost before = es@.subrange(0, i as int);
                let ghost now = es@.subrange(0, i + 1);
                proof {
                    assert(now.drop_last() =~= before);
                }
                match parse_prompt(&es[i]) {
                    Ok(Some(p)) => {
                        let ghost ob = out@;
                        out.push(p);
                        proof {
                            let l = out@.last();
                            assert(out@.drop_last() =~= ob);
                            assert(prompts_view(out@) =~= prompts_view(ob).push((l.title@, l.label@, l.key@)));
                        }
                    },
                    Ok(None) => {},
                    Err(e) => {
                        proof {
                            prompts_of_prefix_fails(es@, i as int, es@.len() as int);
                            assert(es@.subrange(0, es@.len() as int) =~= es@);
                        }
                        return Err(e);
                    },
                }
                i = i + 1;
            }
            proof {
                assert(es@.subrange(0, es@.len() as int) =~= es@);
            }
            Ok(out)
        },
        _ => if is_present(o) {
            Err(DescriptorError::NotAnObject)
        } else {
            Ok(Vec::new())
        },
    }
}

/// A dialog list: absent, `null`, or an array whose input prompts are well formed.
pub open spec fn dialogs_ok(o: Option<Json>) -> bool {
    !present(o) || (o->Some_0 is Array && prompts_of(o->Some_0->Array_0@) is Some)
}

pub open spec fn dialogs_of(o: Option<Json>) -> Seq<(Seq<char>, Seq<char>, Seq<char>)> {
    if !present(o) {
        Seq::empty()
    } else {
        prompts_of(o->Some_0->Array_0@)->Some_0
    }
}

/// A setup section parses: an object with optional string `license_path` and
/// `uninstall_command`, a dialog list, and string `command` and `complete_path`.
pub open spec fn setup_ok(j: Json) -> bool {
    let fs = j->Object_0@;
    &&& j is Object
    &&& opt_string_of(field_of(fs, "license_path"@)) is Some
    &&& opt_string_of(field_of(fs, "uninstall_command"@)) is Some
    &&& dialogs_ok(field_of(fs, "dialogs"@))
    &&& str_field(fs, "command"@) is Some
    &&& str_field(fs, "complete_path"@) is Some
}

/// A setup section holds what its object describes.
pub open spec fn setup_fits(j: Json, s: SetupInfo) -> bool {
    let fs = j->Object_0@;
    &&& opt_view(s.license_path) == opt_string_of(field_of(fs, "license_path"@))->Some_0
    &&& opt_view(s.uninstall_command) == opt_string_of(field_of(fs, "uninstall_command"@))->Some_0
    &&& prompts_view(s.prompts@) == dialogs_of(field_of(fs, "dialogs"@))
    &&& s.command@ == str_field(fs, "command"@)->Some_0
    &&& s.complete_path@ == str_field(fs, "complete_path"@)->Some_0
}

fn parse_setup(j: &Json) -> (r: Result<SetupInfo, DescriptorError>)
    ensures
        r is Ok <==> setup_ok(*j),
        r is Ok ==> setup_fits(*j, r->Ok_0),
        r is Err ==> r->Err_0 != DescriptorError::BadPattern,
{
    let fs = match j {
        Json::Object(fs) => fs,
        _ => return Err(DescriptorError::NotAnObject),
    };
    let license_path = opt_string(field(fs, "license_path"))?;
    let uninstall_command = opt_string(field(fs, "uninstall_command"))?;
    let prompts = match parse_prompts(field(fs, "dialogs")) {
        Ok(p) => p,
        Err(e) => return Err(e),
    };
    let command = match field(fs, "command") {
        Some(Json::Str(c)) => c.clone(),
        _ => return Err(DescriptorError::BadField),
    };
    let complete_path = match field(fs, "complete_path") {
        Some(Json::Str(c)) => c.clone(),
        _ => return Err(DescriptorError::BadField),
    };
    proof {
        if !present(field_of(fs@, "dialogs"@)) {
            assert(prompts_view(prompts@) =~= Seq::empty());
        }
    }
    Ok(SetupInfo { license_path, uninstall_command, prompts, command, complete_path })
}

/// An optional flag: absent, `null` or a boolean.
pub open spec fn flag_ok(o: Option<Json>) -> bool {
    !present(o) || o->Some_0 is Bool
}

/// A flag is set only by the value `true`.
pub open spec fn flag_of(o: Option<Json>) -> bool {
    o == Some(Json::Bool(true))
}

/// A descriptor parses: an object whose `command` is absent, `null` or a
/// string (with a strict `command_args` list when it is a string), whose
/// `commands` table parses, whose `use_original_command_directory` is a flag,
/// and whose `setup`, when present, parses.
pub open spec fn descriptor_ok(j: Json) -> bool {
    let fs = j->Object_0@;
    &&& j is Object
    &&& opt_string_of(field_of(fs, "command"@)) is Some
    &&& present(field_of(fs, "command"@)) ==> string_list_of(field_of(fs, "command_args"@)) is Some
    &&& rules_ok(field_of(fs, "commands"@))
    &&& flag_ok(field_of(fs, "use_original_command_directory"@))
    &&& present(field_of(fs, "setup"@)) ==> setup_ok(field_of(fs, "setup"@)->Some_0)
}

/// A descriptor holds what its object describes.
pub open spec fn descriptor_fits(j: Json, d: Descriptor) -> bool {
    let fs = j->Object_0@;
    &&& d.command is Some <==> present(field_of(fs, "command"@))
    &&& d.command is Some ==> d.command->Some_0.program@ == str_field(fs, "command"@)->Some_0 && strings_view(
        d.command->Some_0.args@,
    ) == string_list_of(field_of(fs, "command_args"@))->Some_0
    &&& rules_fit(field_of(fs, "commands"@), d.commands)
    &&& d.has_choices == present(field_of(fs, "choices"@))
    &&& d.has_download == present(field_of(fs, "download"@))
    &&& d.use_original_command_directory == flag_of(field_of(fs, "use_original_command_directory"@))
    &&& d.setup is Some <==> present(field_of(fs, "setup"@))
    &&& d.setup is Some ==> setup_fits(field_of(fs, "setup"@)->Some_0, d.setup->Some_0)
}

impl Descriptor {
    /// The strict parse of a descriptor object: every field of the wrong type
    /// is refused rather than defaulted.
    pub fn from_json(j: &Json) -> (r: Result<Descriptor, DescriptorError>)
        ensures
            r is Ok <==> descriptor_ok(*j),
            r is Ok ==> descriptor_fits(*j, r->Ok_0),
            !(*j is Object) ==> r == Err::<Descriptor, DescriptorError>(DescriptorError::NotAnObject),
            r == Err::<Descriptor, DescriptorError>(DescriptorError::BadPattern) ==> bad_key(
                field_of(j->Object_0@, "commands"@),
            ),
    {
        let fs = match j {
            Json::Object(fs) => fs,
            _ => return Err(DescriptorError::NotAnObject),
        };
        let command = match field(fs, "command") {
            Some(Json::Str(c)) => match string_list(field(fs, "command_args")) {
                Some(args) => Some(CommandSpec { program: c.clone(), args }),
                None => return Err(DescriptorError::BadField),
            },
            o => if is_present(o) {
                return Err(DescriptorError::BadField);
            } else {
                None
            },
        };
        let commands = parse_rules(field(fs, "commands"))?;
        let use_original_command_directory = match field(fs, "use_original_command_directory") {
            Some(Json::Bool(b)) => *b,
            o => if is_present(o) {
                return Err(DescriptorError::BadField);
            } else {
                false
            },
        };
        let setup = match field(fs, "setup") {
            o => if is_present(o) {
                match parse_setup(o.unwrap()) {
                    Ok(s) => Some(s),
                    Err(e) => return Err(e),
                }
            } else {
                None
            },
        };
        let has_choices = is_present(field(fs, "choices"));
        let has_download = is_present(field(fs, "download"));
        Ok(Descriptor { command, commands, has_choices, has_download, setup, use_original_command_directory })
    }
}

} // verus!
