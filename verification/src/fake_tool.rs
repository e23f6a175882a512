//! Logic of the multi-call fake that stands in for the external programs (`curl`, `date`,
//! `docker`, `git`, `uv`) when the command-line interface is exercised end to end: option
//! lookup, fixture lookup, and the JSON call log.

use vstd::prelude::*;
use crate::chars::{append_str, chars_of, push_char, slice_vec, str_eq, str_starts_with, string_of};
use crate::config::{trim, whitespace_trimmed};
use crate::numbers::{decimal, decimal_u64, digit_char, parse_u64, push_decimal, u64_error};
use crate::paths::{join_path, joined};
use crate::text::join_with;
use crate::fields::{field_views, split_chars, split_on};
use crate::chars::vec_eq;

verus! {

/// The lowercase hexadecimal digit for `d`.
pub open spec fn hex_digit(d: nat) -> char {
    if d < 10 {
        digit_char(d)
    } else if d == 10 {
        'a'
    } else if d == 11 {
        'b'
    } else if d == 12 {
        'c'
    } else if d == 13 {
        'd'
    } else if d == 14 {
        'e'
    } else {
        'f'
    }
}

/// How one character appears inside a JSON string literal.
pub open spec fn json_escape(c: char) -> Seq<char> {
    if c == '"' {
        seq!['\\', '"']
    } else if c == '\\' {
        seq!['\\', '\\']
    } else if c == '\u{08}' {
        seq!['\\', 'b']
    } else if c == '\u{0c}' {
        seq!['\\', 'f']
    } else if c == '\n' {
        seq!['\\', 'n']
    } else if c == '\r' {
        seq!['\\', 'r']
    } else if c == '\t' {
        seq!['\\', 't']
    } else if (c as u32) <= 0x1f {
        seq!['\\', 'u', '0', '0', hex_digit((c as u32 / 16) as nat), hex_digit((c as u32 % 16) as nat)]
    } else {
        seq![c]
    }
}

/// The escaped characters of `s`.
pub open spec fn json_escaped(s: Seq<char>) -> Seq<char>
    decreases s.len(),
{
    if s.len() == 0 {
        seq![]
    } else {
        json_escaped(s.drop_last()) + json_escape(s.last())
    }
}

/// `s` as a JSON string literal.
pub open spec fn json_text(s: Seq<char>) -> Seq<char> {
    seq!['"'] + json_escaped(s) + seq!['"']
}

fn hex(d: u32) -> (c: char)
    requires
        d < 16,
    ensures
        c == hex_digit(d as nat),
{
    if d == 0 { '0' }
    else if d == 1 { '1' }
    else if d == 2 { '2' }
    else if d == 3 { '3' }
    else if d == 4 { '4' }
    else if d == 5 { '5' }
    else if d == 6 { '6' }
    else if d == 7 { '7' }
    else if d == 8 { '8' }
    else if d == 9 { '9' }
    else if d == 10 { 'a' }
    else if d == 11 { 'b' }
    else if d == 12 { 'c' }
    else if d == 13 { 'd' }
    else if d == 14 { 'e' }
    else { 'f' }
}

/// Appends `value` as a JSON string literal.
fn push_json(out: &mut Vec<char>, value: &str)
    ensures
        final(out)@ == old(out)@ + json_text(value@),
{
    let chars = chars_of(value);
    let ghost start = out@;
    out.push('"');
    let mut i: usize = 0;
    while i < chars.len()
        invariant
            i <= chars@.len(),
            chars@ == value@,
            out@ == start + seq!['"'] + json_escaped(chars@.take(i as int)),
        decreases chars@.len() - i,
    {
        let c = chars[i];
        let ghost before = out@;
        if c == '"' {
            out.push('\\');
            out.push('"');
        } else if c == '\\' {
            out.push('\\');
            out.push('\\');
        } else if c == '\u{08}' {
            out.push('\\');
            out.push('b');
        } else if c == '\u{0c}' {
            out.push('\\');
            out.push('f');
        } else if c == '\n' {
            out.push('\\');
            out.push('n');
        } else if c == '\r' {
            out.push('\\');
            out.push('r');
        } else if c == '\t' {
            out.push('\\');
            out.push('t');
        } else if (c as u32) <= 0x1f {
            let v = c as u32;
            out.push('\\');
            out.push('u');
            out.push('0');
            out.push('0');
            out.push(hex(v / 16));
            out.push(hex(v % 16));
        } else {
            out.push(c);
        }
        proof {
            assert(chars@.take(i + 1).drop_last() =~= chars@.take(i as int));
            assert(chars@.take(i + 1).last() == c);
            assert(out@ =~= before + json_escape(c));
        }
        i = i + 1;
    }
    assert(chars@.take(chars@.len() as int) =~= chars@);
    out.push('"');
}

/// Encodes `value` as a JSON string literal, escaping quotes, backslashes, and control
/// characters.
pub fn json_string(value: &str) -> (r: String)
    ensures
        r@ == json_text(value@),
{
    let mut out: Vec<char> = Vec::new();
    push_json(&mut out, value);
    string_of(&out)
}

/// The argument after the first occurrence of `option` that has one.
pub open spec fn separate_value(args: Seq<Seq<char>>, option: Seq<char>, i: int) -> Option<Seq<char>>
    decreases args.len() - i,
{
    if i < 0 || i + 1 >= args.len() {
        None
    } else if args[i] == option {
        Some(args[i + 1])
    } else {
        separate_value(args, option, i + 1)
    }
}

/// The rest of the first argument from position `i` on that starts with `prefix`.
pub open spec fn joined_value(args: Seq<Seq<char>>, prefix: Seq<char>, i: int) -> Option<Seq<char>>
    decreases args.len() - i,
{
    if i < 0 || i >= args.len() {
        None
    } else if prefix.is_prefix_of(args[i]) {
        Some(args[i].skip(prefix.len() as int))
    } else {
        joined_value(args, prefix, i + 1)
    }
}

/// The value of `option` among `args`: the argument after it (`--project /p`), or failing that
/// the rest of an argument written `option=value`.
pub open spec fn option_value_of(args: Seq<Seq<char>>, option: Seq<char>) -> Option<Seq<char>> {
    match separate_value(args, option, 0) {
        Some(v) => Some(v),
        None => joined_value(args, option + seq!['='], 0),
    }
}

/// The views of a slice of strings.
pub open spec fn arg_views(args: Seq<String>) -> Seq<Seq<char>> {
    args.map_values(|s: String| s@)
}

/// Finds the value of `option`, in separate (`--project /p`) or joined (`--project=/p`) form.
pub fn option_value<'a>(args: &'a [String], option: &str) -> (r: Option<&'a str>)
    ensures
        match r {
            Some(v) => option_value_of(arg_views(args@), option@) == Some(v@),
            None => option_value_of(arg_views(args@), option@) is None,
        },
{
    let ghost views = arg_views(args@);
    let mut i: usize = 0;
    while i < args.len()
        invariant
            i <= args@.len(),
            views == arg_views(args@),
            separate_value(views, option@, 0) == separate_value(views, option@, i as int),
        decreases args@.len() - i,
    {
        if i + 1 < args.len() && str_eq(args[i].as_str(), option) {
            return Some(args[i + 1].as_str());
        }
        i = i + 1;
    }
    let mut prefix = option.to_owned();
    push_char(&mut prefix, '=');
    let mut j: usize = 0;
    while j < args.len()
        invariant
            j <= args@.len(),
            views == arg_views(args@),
            prefix@ == option@ + seq!['='],
            separate_value(views, option@, 0) is None,
            joined_value(views, prefix@, 0) == joined_value(views, prefix@, j as int),
        decreases args@.len() - j,
    {
        let arg = args[j].as_str();
        if str_starts_with(arg, prefix.as_str()) {
            let n = prefix.as_str().unicode_len();
            let len = arg.unicode_len();
            return Some(arg.substring_char(n, len));
        }
        j = j + 1;
    }
    None
}

/// Where `curl` was asked to write its output: the value of `-o`, or failing that of `--output`.
pub fn curl_output_path(args: &[String]) -> (r: Option<String>)
    ensures
        match r {
            Some(p) => match option_value_of(arg_views(args@), "-o"@) {
                Some(v) => p@ == v,
                None => option_value_of(arg_views(args@), "--output"@) == Some(p@),
            },
            None => option_value_of(arg_views(args@), "-o"@) is None
                && option_value_of(arg_views(args@), "--output"@) is None,
        },
{
    match option_value(args, "-o") {
        Some(v) => Some(v.to_owned()),
        None => match option_value(args, "--output") {
            Some(v) => Some(v.to_owned()),
            None => None,
        },
    }
}

/// The fixture directory of `tool`: the directory named after it under the fixture root, when
/// a root is configured and that directory exists (`tool_dir_is_dir`).
pub fn fixture_dir(root: Option<&str>, tool: &str, tool_dir_is_dir: bool) -> (r: Option<String>)
    ensures
        match root {
            None => r is None,
            Some(root) => if tool_dir_is_dir {
                r matches Some(d) && d@ == joined(root@, tool@)
            } else {
                r is None
            },
        },
{
    match root {
        None => None,
        Some(root) => if tool_dir_is_dir {
            Some(join_path(root, tool))
        } else {
            None
        },
    }
}

/// The environment variables each logged call records, in order.
pub open spec fn recorded_env_keys() -> Seq<Seq<char>> {
    seq!["HOME"@, "XDG_CONFIG_HOME"@, "XDG_DATA_HOME"@, "OQTOPUS_CLI_VERSION"@]
}

/// The recorded environment variables.
pub fn recorded_env_key_names() -> (r: Vec<&'static str>)
    ensures
        r@.map_values(|s: &str| s@) == recorded_env_keys(),
{
    let r = vec!["HOME", "XDG_CONFIG_HOME", "XDG_DATA_HOME", "OQTOPUS_CLI_VERSION"];
    assert(r@.map_values(|s: &str| s@) =~= recorded_env_keys());
    r
}

/// One `"KEY":value` member of the logged environment; an unset variable is `null`.
pub open spec fn env_member(key: Seq<char>, value: Option<Seq<char>>) -> Seq<char> {
    json_text(key) + seq![':'] + match value {
        Some(v) => json_text(v),
        None => "null"@,
    }
}

/// The members of the logged environment, in key order.
pub open spec fn env_members(keys: Seq<Seq<char>>, values: Seq<Option<Seq<char>>>) -> Seq<Seq<char>> {
    Seq::new(keys.len(), |i: int| env_member(keys[i], values[i]))
}

/// The log record of one call: tool, ordinal, full argument vector, working directory, and the
/// recorded environment, as one line of JSON.
pub open spec fn log_record(tool: Seq<char>, args: Seq<Seq<char>>, cwd: Seq<char>, ordinal: nat, values: Seq<Option<Seq<char>>>) -> Seq<char> {
    "{\"tool\":"@ + json_text(tool) + ",\"ordinal\":"@ + decimal(ordinal) + ",\"argv\":["@
        + join_with((seq![tool] + args).map_values(|a: Seq<char>| json_text(a)), ","@)
        + "],\"cwd\":"@ + json_text(cwd) + ",\"env\":{"@
        + join_with(env_members(recorded_env_keys(), values), ","@) + "}}\n"@
}

/// Builds the log record of one call, given the value of each recorded environment variable
/// (`None` when unset) in key order.
pub fn log_line(tool: &str, args: &[String], cwd: &str, ordinal: u64, env_values: &Vec<Option<String>>) -> (r: String)
    requires
        env_values@.len() == recorded_env_keys().len(),
    ensures
        r@ == log_record(tool@, arg_views(args@), cwd@, ordinal as nat, env_values@.map_values(
            |v: Option<String>| match v {
                Some(s) => Some(s@),
                None => None,
            },
        )),
{
    proof {
        reveal_strlit("{\"tool\":");
        reveal_strlit(",\"ordinal\":");
        reveal_strlit(",\"argv\":[");
        reveal_strlit(",");
    }
    let ghost argv = seq![tool@] + arg_views(args@);
    let ghost parts = argv.map_values(|a: Seq<char>| json_text(a));
    let mut out: Vec<char> = chars_of("{\"tool\":");
    push_json(&mut out, tool);
    append_str(&mut out, ",\"ordinal\":");
    push_decimal(&mut out, ordinal);
    append_str(&mut out, ",\"argv\":[");
    let ghost head = out@;
    push_json(&mut out, tool);
    assert(parts.take(1) =~= seq![json_text(tool@)]);
    let mut i: usize = 0;
    while i < args.len()
        invariant
            i <= args@.len(),
            argv == seq![tool@] + arg_views(args@),
            parts == argv.map_values(|a: Seq<char>| json_text(a)),
            out@ == head + join_with(parts.take(i + 1), ","@),
            ","@ == seq![','],
        decreases args@.len() - i,
    {
        let ghost before = out@;
        out.push(',');
        push_json(&mut out, args[i].as_str());
        proof {
            assert(parts.take(i + 2).drop_last() =~= parts.take(i + 1));
            assert(parts.take(i + 2).last() == json_text(args@[i as int]@));
            assert(out@ =~= head + join_with(parts.take(i + 2), ","@));
        }
        i = i + 1;
    }
    assert(parts.take(args@.len() + 1int) =~= parts);
    append_str(&mut out, "],\"cwd\":");
    push_json(&mut out, cwd);
    append_str(&mut out, ",\"env\":{");
    let ghost env_head = out@;
    let keys = recorded_env_key_names();
    let ghost values = env_values@.map_values(|v: Option<String>| match v {
        Some(s) => Some(s@),
        None => None,
    });
    let ghost members = env_members(recorded_env_keys(), values);
    let mut k: usize = 0;
    while k < keys.len()
        invariant
            k <= keys@.len(),
            keys@.map_values(|s: &str| s@) == recorded_env_keys(),
            env_values@.len() == keys@.len(),
            values == env_values@.map_values(|v: Option<String>| match v {
                Some(s) => Some(s@),
                None => None,
            }),
            members == env_members(recorded_env_keys(), values),
            out@ == env_head + join_with(members.take(k as int), ","@),
            ","@ == seq![','],
        decreases keys@.len() - k,
    {
        let ghost before = out@;
        if k > 0 {
            out.push(',');
        }
        push_json(&mut out, keys[k]);
        out.push(':');
        match &env_values[k] {
            Some(v) => push_json(&mut out, v.as_str()),
            None => append_str(&mut out, "null"),
        }
        proof {
            assert(keys@.map_values(|s: &str| s@)[k as int] == keys@[k as int]@);
            assert(members[k as int] == env_member(recorded_env_keys()[k as int], values[k as int]));
            assert(members.take(k + 1).drop_last() =~= members.take(k as int));
            if k == 0 {
                assert(members.take(1) =~= seq![members[0]]);
            }
            assert(out@ =~= env_head + join_with(members.take(k + 1), ","@));
        }
        k = k + 1;
    }
    assert(members.take(keys@.len() as int) =~= members);
    append_str(&mut out, "}}\n");
    string_of(&out)
}


/// The error `String::from_utf8` renders for `bytes` that are not valid UTF-8.
pub uninterp spec fn utf8_error(bytes: Seq<u8>) -> Seq<char>;

/// The value of a sequence of ASCII decimal digits.
pub open spec fn digits_value(digits: Seq<char>) -> int
    decreases digits.len(),
{
    if digits.len() == 0 {
        0
    } else {
        10 * digits_value(digits.drop_last()) + (digits.last() as int - '0' as int)
    }
}

/// The number `text` writes as an `i32`: an optional `+` or `-`, then one or more ASCII digits,
/// denoting a value in the range of `i32`; `None` for any other text.
pub open spec fn decimal_i32(text: Seq<char>) -> Option<i32> {
    let negative = text.len() > 0 && text[0] == '-';
    let digits = if text.len() > 0 && (text[0] == '-' || text[0] == '+') {
        text.skip(1)
    } else {
        text
    };
    let value = if negative {
        -digits_value(digits)
    } else {
        digits_value(digits)
    };
    if digits.len() > 0 && (forall|i: int| 0 <= i < digits.len() ==> '0' <= #[trigger] digits[i] <= '9')
        && i32::MIN <= value <= i32::MAX {
        Some(value as i32)
    } else {
        None
    }
}

/// The error `str::parse::<i32>` renders for `text` that is not a decimal `i32`.
pub uninterp spec fn i32_error(text: Seq<char>) -> Seq<char>;

/// What `{:?}` renders for the string `text`.
pub uninterp spec fn debug_rendered(text: Seq<char>) -> Seq<char>;

/// Decodes `bytes` as UTF-8 (`String::from_utf8`), rendering the error with `Display`.
/// The call succeeds exactly on valid UTF-8, with the characters it encodes; the text of the
/// error is left to the name `utf8_error`.
#[verifier::external_body]
fn decode_utf8(bytes: Vec<u8>) -> (r: Result<String, String>)
    ensures
        r is Ok <==> vstd::utf8::valid_utf8(bytes@),
        r matches Ok(t) ==> t@ == vstd::utf8::decode_utf8(bytes@),
        r matches Err(e) ==> e@ == utf8_error(bytes@),
{
    String::from_utf8(bytes).map_err(|error| error.to_string())
}

/// Parses a decimal `i32` (`str::parse::<i32>`), rendering the error with `Display`. The call
/// succeeds exactly on an optional sign followed by digits denoting an `i32`, with that number;
/// the text of the error is left to the name `i32_error`.
#[verifier::external_body]
fn parse_i32(text: &str) -> (r: Result<i32, String>)
    ensures
        r is Ok <==> decimal_i32(text@) is Some,
        r matches Ok(n) ==> decimal_i32(text@) == Some(n),
        r matches Err(e) ==> e@ == i32_error(text@),
{
    text.parse::<i32>().map_err(|error| error.to_string())
}

/// Renders `text` as `{:?}` does: quoted, with escapes.
#[verifier::external_body]
fn debug_string(text: &str) -> (r: String)
    ensures
        r@ == debug_rendered(text@),
{
    format!("{text:?}")
}

/// The decimal representation of a signed number.
pub open spec fn signed_decimal(n: int) -> Seq<char> {
    if n < 0 {
        seq!['-'] + decimal((-n) as nat)
    } else {
        decimal(n as nat)
    }
}

/// The exit status a fixture's `status` file configures: 0 when there is no such file;
/// otherwise its UTF-8 text, trimmed, as a number from 0 to 255.
pub open spec fn fixture_status(contents: Option<Seq<u8>>) -> Result<i32, Seq<char>> {
    match contents {
        None => Ok(0),
        Some(bytes) => if !vstd::utf8::valid_utf8(bytes) {
            Err("status is not UTF-8: "@ + utf8_error(bytes))
        } else {
            let value = vstd::utf8::decode_utf8(bytes);
            match decimal_i32(whitespace_trimmed(value)) {
                None => Err("invalid status "@ + debug_rendered(value) + ": "@ + i32_error(
                    whitespace_trimmed(value),
                )),
                Some(status) => if 0 <= status <= 255 {
                    Ok(status)
                } else {
                    Err("status must be between 0 and 255, got "@ + signed_decimal(status as int))
                },
            }
        },
    }
}

/// Reads the exit status a fixture configures, given the contents of its `status` file (`None`
/// when there is none).
pub fn read_status(contents: Option<Vec<u8>>) -> (r: Result<i32, String>)
    ensures
        match r {
            Ok(n) => fixture_status(match contents {
                Some(b) => Some(b@),
                None => None,
            }) == Ok::<i32, Seq<char>>(n),
            Err(e) => fixture_status(match contents {
                Some(b) => Some(b@),
                None => None,
            }) == Err::<i32, Seq<char>>(e@),
        },
{
    let bytes = match contents {
        None => {
            assert(fixture_status(None) == Ok::<i32, Seq<char>>(0));
            return Ok(0);
        },
        Some(b) => b,
    };
    let ghost raw = bytes@;
    let value = match decode_utf8(bytes) {
        Ok(v) => v,
        Err(e) => {
            let mut m = "status is not UTF-8: ".to_owned();
            m.append(e.as_str());
            return Err(m);
        },
    };
    let status = match parse_i32(trim(value.as_str()).as_str()) {
        Ok(n) => n,
        Err(e) => {
            let mut m = "invalid status ".to_owned();
            m.append(debug_string(value.as_str()).as_str());
            m.append(": ");
            m.append(e.as_str());
            return Err(m);
        },
    };
    if 0 <= status && status <= 255 {
        assert(fixture_status(Some(raw)) == Ok::<i32, Seq<char>>(status));
        Ok(status)
    } else {
        let mut out: Vec<char> = chars_of("status must be between 0 and 255, got ");
        if status < 0 {
            out.push('-');
            let magnitude: u64 = (0i64 - status as i64) as u64;
            assert(magnitude as int == -status);
            push_decimal(&mut out, magnitude);
            assert(out@ =~= "status must be between 0 and 255, got "@ + signed_decimal(status as int));
        } else {
            push_decimal(&mut out, status as u64);
            assert(out@ =~= "status must be between 0 and 255, got "@ + signed_decimal(status as int));
        }
        Err(string_of(&out))
    }
}


/// One component of a path, as `Path::components` yields it on Unix.
pub enum PathPart {
    Root,
    Cur,
    Parent,
    Normal(Seq<char>),
}

/// The components of the `/`-separated fields of a path: empty fields and `.` are skipped, except
/// a leading `.` of a relative path.
pub open spec fn parts_of(fields: Seq<Seq<char>>, absolute: bool) -> Seq<PathPart>
    decreases fields.len(),
{
    if fields.len() == 0 {
        seq![]
    } else {
        let p = parts_of(fields.drop_last(), absolute);
        let f = fields.last();
        if f.len() == 0 {
            p
        } else if f == seq!['.'] {
            if fields.len() == 1 && !absolute {
                p.push(PathPart::Cur)
            } else {
                p
            }
        } else if f == seq!['.', '.'] {
            p.push(PathPart::Parent)
        } else {
            p.push(PathPart::Normal(f))
        }
    }
}

/// Whether a path is absolute.
pub open spec fn is_absolute(path: Seq<char>) -> bool {
    path.len() > 0 && path[0] == '/'
}

/// The components of a path.
pub open spec fn path_parts(path: Seq<char>) -> Seq<PathPart> {
    (if is_absolute(path) {
        seq![PathPart::Root]
    } else {
        seq![]
    }) + parts_of(split_on(path, '/'), is_absolute(path))
}

/// A path made of names below the root (when `absolute`) or below the current directory.
pub open spec fn rendered(absolute: bool, names: Seq<Seq<char>>) -> Seq<char> {
    if absolute {
        seq!['/'] + join_with(names, seq!['/'])
    } else {
        join_with(names, seq!['/'])
    }
}

/// Resolving `parts` lexically: whether the path is absolute, its names, whether no `..` went
/// above the top, and the path after each component, in order (the paths to check for links).
pub open spec fn normalized(parts: Seq<PathPart>) -> (bool, Seq<Seq<char>>, bool, Seq<Seq<char>>)
    decreases parts.len(),
{
    if parts.len() == 0 {
        (false, seq![], true, seq![])
    } else {
        let (absolute, names, ok, checks) = normalized(parts.drop_last());
        if !ok {
            (absolute, names, ok, checks)
        } else {
            match parts.last() {
                PathPart::Root => (true, seq![], true, checks.push(seq!['/'])),
                PathPart::Cur => (absolute, names, true, checks.push(rendered(absolute, names))),
                PathPart::Parent => if names.len() == 0 {
                    (absolute, names, false, checks)
                } else {
                    (absolute, names.drop_last(), true, checks.push(rendered(absolute, names.drop_last())))
                },
                PathPart::Normal(s) => (absolute, names.push(s), true, checks.push(rendered(absolute, names.push(s)))),
            }
        }
    }
}

/// The components of a resolved path.
pub open spec fn resolved_parts(absolute: bool, names: Seq<Seq<char>>) -> Seq<PathPart> {
    (if absolute {
        seq![PathPart::Root]
    } else {
        seq![]
    }) + names.map_values(|n: Seq<char>| PathPart::Normal(n))
}

/// The path a target names: itself when absolute, otherwise below `cwd`.
pub open spec fn target_path(cwd: Seq<char>, requested: Seq<char>) -> Seq<char> {
    if is_absolute(requested) {
        requested
    } else {
        joined(cwd, requested)
    }
}

/// Where a confined target lands: the lexically resolved path when it stays inside the sandbox,
/// or the diagnostic.
pub open spec fn confined(cwd: Seq<char>, requested: Seq<char>, sandbox: Seq<char>) -> Result<Seq<char>, Seq<char>> {
    let (absolute, names, ok, _) = normalized(path_parts(target_path(cwd, requested)));
    let sp = path_parts(sandbox);
    let np = resolved_parts(absolute, names);
    if !ok {
        Err("target escapes filesystem root: "@ + requested)
    } else if sp.len() <= np.len() && np.take(sp.len() as int) == sp {
        Ok(rendered(absolute, names))
    } else {
        Err("target is outside test sandbox "@ + sandbox + ": "@ + requested)
    }
}

/// The paths to check for links while resolving a target, in order.
pub open spec fn confined_checks(cwd: Seq<char>, requested: Seq<char>) -> Seq<Seq<char>> {
    normalized(path_parts(target_path(cwd, requested))).3
}

/// A path component in executable form.
pub enum Part {
    Root,
    Cur,
    Parent,
    Normal(Vec<char>),
}

impl View for Part {
    type V = PathPart;

    open spec fn view(&self) -> PathPart {
        match self {
            Part::Root => PathPart::Root,
            Part::Cur => PathPart::Cur,
            Part::Parent => PathPart::Parent,
            Part::Normal(v) => PathPart::Normal(v@),
        }
    }
}

/// The views of a list of components.
pub open spec fn part_views(v: Seq<Part>) -> Seq<PathPart> {
    v.map_values(|p: Part| p@)
}

/// The components of a path.
fn parts(path: &Vec<char>) -> (r: Vec<Part>)
    ensures
        part_views(r@) == path_parts(path@),
{
    let absolute = path.len() > 0 && path[0] == '/';
    let fields = split_chars(path, '/');
    let ghost fv = split_on(path@, '/');
    let mut r: Vec<Part> = Vec::new();
    if absolute {
        r.push(Part::Root);
    }
    let ghost head = part_views(r@);
    assert(head =~= (if absolute { seq![PathPart::Root] } else { Seq::<PathPart>::empty() }));
    let mut i: usize = 0;
    assert(fv.take(0) =~= Seq::<Seq<char>>::empty());
    while i < fields.len()
        invariant
            i <= fields@.len(),
            field_views(fields@) == fv,
            absolute == is_absolute(path@),
            part_views(r@) == head + parts_of(fv.take(i as int), absolute),
        decreases fields@.len() - i,
    {
        let f = &fields[i];
        assert(fv[i as int] == f@);
        assert(fv.take(i + 1).drop_last() =~= fv.take(i as int));
        assert(fv.take(i + 1).last() == f@);
        let ghost before = part_views(r@);
        if f.len() == 0 {
        } else if f.len() == 1 && f[0] == '.' {
            assert(f@ =~= seq!['.']);
            if i == 0 && !absolute {
                r.push(Part::Cur);
                assert(part_views(r@) =~= before.push(PathPart::Cur));
            }
        } else if f.len() == 2 && f[0] == '.' && f[1] == '.' {
            assert(f@ =~= seq!['.', '.']);
            r.push(Part::Parent);
            assert(part_views(r@) =~= before.push(PathPart::Parent));
        } else {
            assert(f@ != seq!['.']);
            assert(f@ != seq!['.', '.']);
            r.push(Part::Normal(f.clone()));
            assert(part_views(r@) =~= before.push(PathPart::Normal(f@)));
        }
        i = i + 1;
    }
    assert(fv.take(fields@.len() as int) =~= fv);
    r
}

/// Renders names below the root or the current directory.
fn render(absolute: bool, names: &Vec<Vec<char>>) -> (r: Vec<char>)
    ensures
        r@ == rendered(absolute, field_views(names@)),
{
    let mut out: Vec<char> = Vec::new();
    if absolute {
        out.push('/');
    }
    let ghost start = out@;
    let ghost nv = field_views(names@);
    let mut i: usize = 0;
    while i < names.len()
        invariant
            i <= names@.len(),
            nv == field_views(names@),
            out@ == start + join_with(nv.take(i as int), seq!['/']),
        decreases names@.len() - i,
    {
        if i > 0 {
            out.push('/');
        }
        let ghost before = out@;
        crate::chars::append_vec(&mut out, &names[i]);
        proof {
            assert(nv.take(i + 1).drop_last() =~= nv.take(i as int));
            assert(nv.take(i + 1).last() == names@[i as int]@);
            if i == 0 {
                assert(nv.take(1) =~= seq![names@[0]@]);
            }
        }
        assert(out@ =~= start + join_with(nv.take(i + 1), seq!['/']));
        i = i + 1;
    }
    assert(nv.take(names@.len() as int) =~= nv);
    out
}

/// Where a target lands once resolved, with the paths to check for links on the way.
pub struct ConfinedTarget {
    /// The path after each component, in order: none of them may be a link.
    pub checks: Vec<String>,
    /// The resolved path inside the sandbox, or why the target is refused.
    pub result: Result<String, String>,
}

/// Resolves components lexically, as [`normalized`] states it.
fn normalize_parts(ps: &Vec<Part>) -> (r: (bool, Vec<Vec<char>>, bool, Vec<String>))
    ensures
        normalized(part_views(ps@)) == (r.0, field_views(r.1@), r.2, r.3@.map_values(|s: String| s@)),
{
    let ghost pv = part_views(ps@);
    let mut absolute = false;
    let mut names: Vec<Vec<char>> = Vec::new();
    let mut ok = true;
    let mut checks: Vec<String> = Vec::new();
    let mut i: usize = 0;
    assert(pv.take(0) =~= Seq::<PathPart>::empty());
    assert(field_views(names@) =~= Seq::<Seq<char>>::empty());
    assert(checks@.map_values(|s: String| s@) =~= Seq::<Seq<char>>::empty());
    while i < ps.len()
        invariant
            i <= ps@.len(),
            pv == part_views(ps@),
            normalized(pv.take(i as int)) == (absolute, field_views(names@), ok, checks@.map_values(|s: String| s@)),
        decreases ps@.len() - i,
    {
        assert(pv.take(i + 1).drop_last() =~= pv.take(i as int));
        assert(pv.take(i + 1).last() == ps@[i as int]@);
        let ghost before_checks = checks@.map_values(|s: String| s@);
        let ghost before_names = field_views(names@);
        if ok {
            match &ps[i] {
                Part::Root => {
                    absolute = true;
                    names = Vec::new();
                    let mut slash = String::new();
                    push_char(&mut slash, '/');
                    checks.push(slash);
                    assert(checks@.map_values(|s: String| s@) =~= before_checks.push(seq!['/']));
                    assert(field_views(names@) =~= Seq::<Seq<char>>::empty());
                },
                Part::Cur => {
                    checks.push(string_of(&render(absolute, &names)));
                    assert(checks@.map_values(|s: String| s@) =~= before_checks.push(rendered(absolute, before_names)));
                },
                Part::Parent => {
                    if names.len() == 0 {
                        ok = false;
                    } else {
                        names.pop();
                        assert(field_views(names@) =~= before_names.drop_last());
                        checks.push(string_of(&render(absolute, &names)));
                        assert(checks@.map_values(|s: String| s@) =~= before_checks.push(rendered(absolute, before_names.drop_last())));
                    }
                },
                Part::Normal(n) => {
                    names.push(n.clone());
                    assert(field_views(names@) =~= before_names.push(n@));
                    checks.push(string_of(&render(absolute, &names)));
                    assert(checks@.map_values(|s: String| s@) =~= before_checks.push(rendered(absolute, before_names.push(n@))));
                },
            }
        }
        i = i + 1;
    }
    assert(pv.take(ps@.len() as int) =~= pv);
    (absolute, names, ok, checks)
}

/// Whether the components of `sandbox` begin the components of a resolved path.
fn begins_with(sp: &Vec<Part>, absolute: bool, names: &Vec<Vec<char>>) -> (r: bool)
    ensures
        r == ({
            let spv = part_views(sp@);
            let np = resolved_parts(absolute, field_views(names@));
            spv.len() <= np.len() && np.take(spv.len() as int) == spv
        }),
{
    let ghost spv = part_views(sp@);
    let ghost np = resolved_parts(absolute, field_views(names@));
    let offset: usize = if absolute { 1 } else { 0 };
    assert(np.len() == offset + names@.len());
    if sp.len() >= offset && sp.len() - offset > names.len() {
        return false;
    }
    let mut k: usize = 0;
    while k < sp.len()
        invariant
            k <= sp@.len(),
            sp@.len() <= offset + names@.len(),
            np.len() == offset + names@.len(),
            np == resolved_parts(absolute, field_views(names@)),
            spv == part_views(sp@),
            offset == (if absolute { 1usize } else { 0usize }),
            forall|q: int| 0 <= q < k ==> spv[q] == np[q],
        decreases sp@.len() - k,
    {
        let same = if k < offset {
            match &sp[k] {
                Part::Root => true,
                _ => false,
            }
        } else {
            match &sp[k] {
                Part::Normal(n) => vec_eq(n, &names[k - offset]),
                _ => false,
            }
        };
        assert(spv[k as int] == sp@[k as int]@);
        proof {
            if absolute && k == 0 {
                assert(np[0] == PathPart::Root);
            } else {
                assert(np[k as int] == PathPart::Normal(field_views(names@)[k - offset]));
                assert(field_views(names@)[k - offset] == names@[k - offset]@);
            }
        }
        if !same {
            assert(spv[k as int] != np[k as int]);
            assert(np.take(spv.len() as int)[k as int] == np[k as int]);
            return false;
        }
        k = k + 1;
    }
    assert(np.take(spv.len() as int) =~= spv);
    true
}

/// Resolves `requested` (relative to `cwd`) lexically and confines it to `sandbox`. A target
/// whose `..` goes above the filesystem root, or that lands outside the sandbox, is refused; the
/// caller also refuses one that traverses a link (see [`symlink_traversal`]).
pub fn confined_target(cwd: &str, requested: &str, sandbox: &str) -> (r: ConfinedTarget)
    ensures
        r.checks@.map_values(|s: String| s@) == confined_checks(cwd@, requested@),
        match r.result {
            Ok(p) => confined(cwd@, requested@, sandbox@) == Ok::<Seq<char>, Seq<char>>(p@),
            Err(m) => confined(cwd@, requested@, sandbox@) == Err::<Seq<char>, Seq<char>>(m@),
        },
{
    let req = chars_of(requested);
    let candidate = if req.len() > 0 && req[0] == '/' {
        req
    } else {
        chars_of(join_path(cwd, requested).as_str())
    };
    assert(candidate@ == target_path(cwd@, requested@));
    let ps = parts(&candidate);
    let (absolute, names, ok, checks) = normalize_parts(&ps);
    let result = if !ok {
        let mut m = "target escapes filesystem root: ".to_owned();
        m.append(requested);
        Err(m)
    } else {
        let sp = parts(&chars_of(sandbox));
        if begins_with(&sp, absolute, &names) {
            Ok(string_of(&render(absolute, &names)))
        } else {
            let mut m = "target is outside test sandbox ".to_owned();
            m.append(sandbox);
            m.append(": ");
            m.append(requested);
            Err(m)
        }
    };
    ConfinedTarget { checks, result }
}

/// The diagnostic for a target whose resolution passes through the link `link`.
pub fn symlink_traversal(link: &str, requested: &str) -> (r: String)
    ensures
        r@ == "target traverses the symlink "@ + link@ + ": "@ + requested@,
{
    let mut m = "target traverses the symlink ".to_owned();
    m.append(link);
    m.append(": ");
    m.append(requested);
    m
}


/// The programs the fake stands in for.
pub open spec fn supported_tools() -> Seq<Seq<char>> {
    seq!["curl"@, "date"@, "docker"@, "git"@, "uv"@]
}

/// `s` without any number of trailing `.exe`.
pub open spec fn without_exe(s: Seq<char>) -> Seq<char>
    decreases s.len(),
{
    if s.len() >= 4 && s.skip(s.len() - 4) == ".exe"@ {
        without_exe(s.take(s.len() - 4))
    } else {
        s
    }
}

/// The last component of a path when it is a name, as `Path::file_name` gives it; empty otherwise.
pub open spec fn file_name(path: Seq<char>) -> Seq<char> {
    let ps = path_parts(path);
    if ps.len() > 0 && ps.last() is Normal {
        ps.last()->Normal_0
    } else {
        seq![]
    }
}

/// Which program an invocation stands in for: the name it was invoked under, or failing that the
/// configured one; or the diagnostic when neither is supported.
pub open spec fn invoked(argv0: Option<Seq<char>>, configured: Option<Seq<char>>) -> Result<Seq<char>, Seq<char>> {
    let executable = match argv0 {
        Some(a) => without_exe(file_name(a)),
        None => seq![],
    };
    let tool = if supported_tools().contains(executable) {
        executable
    } else {
        match configured {
            Some(c) => c,
            None => executable,
        }
    };
    if supported_tools().contains(tool) {
        Ok(tool)
    } else {
        Err("unsupported invocation name "@ + debug_rendered(executable) + "; expected one of curl, date, docker, git, uv"@)
    }
}

fn supported(name: &str) -> (r: bool)
    ensures
        r == supported_tools().contains(name@),
{
    let r = str_eq(name, "curl") || str_eq(name, "date") || str_eq(name, "docker") || str_eq(name, "git")
        || str_eq(name, "uv");
    proof {
        if r {
            if name@ == "curl"@ { assert(supported_tools()[0] == name@); }
            if name@ == "date"@ { assert(supported_tools()[1] == name@); }
            if name@ == "docker"@ { assert(supported_tools()[2] == name@); }
            if name@ == "git"@ { assert(supported_tools()[3] == name@); }
            if name@ == "uv"@ { assert(supported_tools()[4] == name@); }
        }
    }
    r
}

/// Decides which program an invocation stands in for, from the path it was invoked under and the
/// configured program (`OQTOPUS_TEST_FAKE_TOOL`), when set.
pub fn invoked_tool(argv0: Option<&str>, configured: Option<&str>) -> (r: Result<String, String>)
    ensures
        match r {
            Ok(t) => invoked(crate::chars::opt_view(argv0), crate::chars::opt_view(configured)) == Ok::<Seq<char>, Seq<char>>(t@),
            Err(m) => invoked(crate::chars::opt_view(argv0), crate::chars::opt_view(configured)) == Err::<Seq<char>, Seq<char>>(m@),
        },
{
    let mut executable: Vec<char> = Vec::new();
    if let Some(a) = argv0 {
        let ps = parts(&chars_of(a));
        if ps.len() > 0 {
            if let Part::Normal(n) = &ps[ps.len() - 1] {
                executable = n.clone();
            }
        }
        assert(executable@ == file_name(a@));
        proof {
            reveal_strlit(".exe");
        }
        while executable.len() >= 4 && executable[executable.len() - 4] == '.'
            && executable[executable.len() - 3] == 'e' && executable[executable.len() - 2] == 'x'
            && executable[executable.len() - 1] == 'e'
            invariant
                without_exe(executable@) == without_exe(file_name(a@)),
                ".exe"@ == seq!['.', 'e', 'x', 'e'],
            decreases executable@.len(),
        {
            let n = executable.len();
            assert(executable@.skip(n - 4) =~= ".exe"@);
            executable = crate::chars::slice_vec(&executable, 0, n - 4);
        }
        proof {
            let e = executable@;
            if e.len() >= 4 && e.skip(e.len() - 4) == ".exe"@ {
                assert(e.skip(e.len() - 4)[0] == e[e.len() - 4]);
                assert(e.skip(e.len() - 4)[1] == e[e.len() - 3]);
                assert(e.skip(e.len() - 4)[2] == e[e.len() - 2]);
                assert(e.skip(e.len() - 4)[3] == e[e.len() - 1]);
            }
        }
    }
    let executable = string_of(&executable);
    let tool = if supported(executable.as_str()) {
        executable.clone()
    } else {
        match configured {
            Some(c) => c.to_owned(),
            None => executable.clone(),
        }
    };
    if supported(tool.as_str()) {
        Ok(tool)
    } else {
        let mut m = "unsupported invocation name ".to_owned();
        m.append(debug_string(executable.as_str()).as_str());
        m.append("; expected one of curl, date, docker, git, uv");
        Err(m)
    }
}


/// The side effect a successful fake call has besides its output.
pub enum DefaultEffect {
    /// `curl -o <path>`: write the configured output to this file instead of the output stream.
    WriteOutput(String),
    /// `git clone ... <target>`: create the clone target.
    CreateDir(String),
    /// `uv sync --project <project>`: create the project's virtual environment.
    CreateVenv(String),
}

/// The side effect a successful call of `tool` with `args` has, if any.
pub fn default_effect(tool: &str, args: &[String]) -> (r: Option<DefaultEffect>)
    ensures
        tool@ == "curl"@ ==> match option_value_of(arg_views(args@), "-o"@) {
            Some(p) => r matches Some(DefaultEffect::WriteOutput(q)) && q@ == p,
            None => match option_value_of(arg_views(args@), "--output"@) {
                Some(p) => r matches Some(DefaultEffect::WriteOutput(q)) && q@ == p,
                None => r is None,
            },
        },
        tool@ == "git"@ ==> if args@.len() > 0 && args@[0]@ == "clone"@ {
            r matches Some(DefaultEffect::CreateDir(t)) && t@ == args@.last()@
        } else {
            r is None
        },
        tool@ == "uv"@ ==> if args@.len() > 0 && args@[0]@ == "sync"@ {
            match option_value_of(arg_views(args@), "--project"@) {
                Some(p) => r matches Some(DefaultEffect::CreateVenv(q)) && q@ == p,
                None => r is None,
            }
        } else {
            r is None
        },
        tool@ != "curl"@ && tool@ != "git"@ && tool@ != "uv"@ ==> r is None,
{
    proof {
        reveal_strlit("curl");
        reveal_strlit("git");
        reveal_strlit("uv");
        reveal_strlit("clone");
        reveal_strlit("sync");
        assert("curl"@.len() == 4 && "git"@.len() == 3 && "uv"@.len() == 2);
    }
    if str_eq(tool, "curl") {
        match curl_output_path(args) {
            Some(p) => Some(DefaultEffect::WriteOutput(p)),
            None => None,
        }
    } else if str_eq(tool, "git") {
        if args.len() > 0 && str_eq(args[0].as_str(), "clone") {
            Some(DefaultEffect::CreateDir(args[args.len() - 1].clone()))
        } else {
            None
        }
    } else if str_eq(tool, "uv") {
        if args.len() > 0 && str_eq(args[0].as_str(), "sync") {
            match option_value(args, "--project") {
                Some(p) => Some(DefaultEffect::CreateVenv(p.to_owned())),
                None => None,
            }
        } else {
            None
        }
    } else {
        None
    }
}

/// Whether a call's output reaches the output stream: `curl -o` writes it to its file instead.
pub fn shows_output(tool: &str, args: &[String]) -> (r: bool)
    ensures
        r == !(tool@ == "curl"@ && (option_value_of(arg_views(args@), "-o"@) is Some
            || option_value_of(arg_views(args@), "--output"@) is Some)),
{
    !(str_eq(tool, "curl") && curl_output_path(args).is_some())
}


/// Whether a call of `tool` with `args` shows its configured output on the output stream.
pub open spec fn output_shown(tool: Seq<char>, args: Seq<Seq<char>>) -> bool {
    !(tool == "curl"@ && (option_value_of(args, "-o"@) is Some || option_value_of(args, "--output"@) is Some))
}

/// The refusal of a call for which no fixture was configured.
pub open spec fn no_fixture_message(tool: Seq<char>, ordinal: nat) -> Seq<char> {
    "no fixture configured for "@ + tool + " call "@ + decimal(ordinal) + "; refusing to succeed implicitly"@
}

/// What the fake does with one call once its fixture has been read.
pub struct FakePlan {
    /// The status the fake exits with.
    pub exit_status: i32,
    /// Whether the call's default effect (see `default_effect`) is carried out.
    pub apply_effects: bool,
    /// Whether the configured output is written to the output stream.
    pub show_stdout: bool,
}

/// Decides one fake call: `fixture` is the call's fixture directory, if one is configured,
/// and `status` what `read_status` made of its status file. A call without a fixture is
/// refused, so that a test never falls through to a real program; a call with one exits
/// with the configured status and carries out its default effect only when that is 0.
pub fn fake_plan(tool: &str, args: &[String], ordinal: u64, fixture: Option<String>,
    status: Result<i32, String>) -> (r: Result<FakePlan, String>)
    ensures
        fixture is None ==> (r matches Err(m) && m@ == no_fixture_message(tool@, ordinal as nat)),
        fixture is Some && status is Err ==> (r matches Err(m) && m@ == status->Err_0@),
        fixture is Some ==> (status matches Ok(s) ==> (r matches Ok(p) && p.exit_status == s
            && p.apply_effects == (s == 0) && p.show_stdout == output_shown(tool@, arg_views(args@)))),
{
    match fixture {
        None => {
            let mut m: Vec<char> = Vec::new();
            append_str(&mut m, "no fixture configured for ");
            append_str(&mut m, tool);
            append_str(&mut m, " call ");
            push_decimal(&mut m, ordinal);
            append_str(&mut m, "; refusing to succeed implicitly");
            proof {
                assert(m@ =~= no_fixture_message(tool@, ordinal as nat));
            }
            Err(string_of(&m))
        },
        Some(_) => match status {
            Err(e) => Err(e),
            Ok(s) => Ok(FakePlan { exit_status: s, apply_effects: s == 0, show_stdout: shows_output(tool, args) }),
        },
    }
}

/// The status the fake exits with when it cannot carry out a call.
pub fn fake_failure_status() -> (r: i32)
    ensures
        r == 125,
{
    125
}

/// The ordinal of a call, given the text of the tool's call counter (`None` before its first
/// call) kept in the file `path`: one more than the count it records.
pub open spec fn counted_ordinal(previous: Option<Seq<char>>, path: Seq<char>) -> Result<u64, Seq<char>> {
    match previous {
        None => Ok(1),
        Some(text) => match decimal_u64(whitespace_trimmed(text)) {
            None => Err("parse "@ + path + ": "@ + u64_error(whitespace_trimmed(text))),
            Some(n) => if n < u64::MAX {
                Ok((n + 1) as u64)
            } else {
                Err("count in "@ + path + " is too large"@)
            },
        },
    }
}

/// Counts one more call: the ordinal after the count recorded in `previous`, the text of the
/// counter file `path`.
pub fn ordinal_after(previous: Option<&str>, path: &str) -> (r: Result<u64, String>)
    ensures
        match r {
            Ok(n) => counted_ordinal(crate::chars::opt_view(previous), path@) == Ok::<u64, Seq<char>>(n),
            Err(m) => counted_ordinal(crate::chars::opt_view(previous), path@) == Err::<u64, Seq<char>>(m@),
        },
{
    let text = match previous {
        None => return Ok(1),
        Some(t) => t,
    };
    match parse_u64(trim(text).as_str()) {
        Err(e) => {
            let mut m = "parse ".to_owned();
            m.append(path);
            m.append(": ");
            m.append(e.as_str());
            Err(m)
        },
        Ok(n) => if n < u64::MAX {
            Ok(n + 1)
        } else {
            let mut m = "count in ".to_owned();
            m.append(path);
            m.append(" is too large");
            Err(m)
        },
    }
}

} // verus!
