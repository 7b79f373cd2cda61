//! Server configuration: what the client announced, and the options it set.
use vstd::prelude::*;

use crate::text::chars_of;
use crate::vfs_path::{is_absolute, AbsPathBuf};

verus! {

/// Declares `lsp_types::ClientCapabilities`, kept as the client sent it.
#[verifier::external_type_specification]
#[verifier::external_body]
pub struct ExClientCapabilities(lsp_types::ClientCapabilities);

/// The location of a project manifest file.
#[derive(Debug, Clone)]
pub struct ManifestPath {
    pub file: AbsPathBuf,
}

/// A project manifest found in the workspace.
#[derive(Debug, Clone)]
pub enum ProjectManifest {
    BoxJson(ManifestPath),
}

/// The configuration fields that failed to parse: each field's pointer and
/// the parser's description.
#[derive(Debug)]
pub struct ConfigError {
    pub errors: Vec<(String, String)>,
}

/// The server configuration.
#[derive(Debug)]
pub struct Config {
    pub root_path: AbsPathBuf,
    pub capabilities: lsp_types::ClientCapabilities,
    pub workspace_roots: Vec<AbsPathBuf>,
    pub detached_files: Vec<AbsPathBuf>,
    pub discovered_projects: Vec<ProjectManifest>,
}

impl Config {
    /// A configuration with no option set.
    pub fn new(
        root_path: AbsPathBuf,
        capabilities: lsp_types::ClientCapabilities,
        workspace_roots: Vec<AbsPathBuf>,
    ) -> (r: Config)
        ensures
            r.root_path == root_path,
            r.capabilities == capabilities,
            r.workspace_roots == workspace_roots,
            r.detached_files@.len() == 0,
            r.discovered_projects@.len() == 0,
    {
        Config {
            root_path,
            capabilities,
            workspace_roots,
            detached_files: Vec::new(),
            discovered_projects: Vec::new(),
        }
    }
}

/// Whether a JSON value is `null`.
pub uninterp spec fn json_is_null_value(v: serde_json::Value) -> bool;

/// Whether a JSON value is an object without members.
pub uninterp spec fn json_is_empty_object_value(v: serde_json::Value) -> bool;

/// The value at a JSON pointer, if there is one.
pub uninterp spec fn json_at(v: serde_json::Value, pointer: Seq<char>) -> Option<serde_json::Value>;

/// A JSON value after the value at a pointer was moved out of it.
pub uninterp spec fn json_after_take(v: serde_json::Value, pointer: Seq<char>) -> serde_json::Value;

/// A JSON value read as a list of strings, or the parser's description of
/// why it is not one.
pub uninterp spec fn path_list_in(v: serde_json::Value) -> Result<Seq<Seq<char>>, Seq<char>>;

/// The texts of a list of strings, or the text of an error.
pub open spec fn list_result_view(r: Result<Vec<String>, String>) -> Result<Seq<Seq<char>>, Seq<char>> {
    match r {
        Ok(l) => Ok(l@.map_values(|s: String| s@)),
        Err(e) => Err(e@),
    }
}

/// Relies on `Value::is_null`.
#[verifier::external_body]
fn json_is_null(v: &serde_json::Value) -> (r: bool)
    ensures
        r == json_is_null_value(*v),
{
    v.is_null()
}

/// Relies on `Value::as_object` and `Map::is_empty`: the value is an object
/// without members.
#[verifier::external_body]
fn json_is_empty_object(v: &serde_json::Value) -> (r: bool)
    ensures
        r == json_is_empty_object_value(*v),
{
    match v.as_object() {
        Some(members) => members.is_empty(),
        None => false,
    }
}

/// Relies on `Value::pointer_mut` and `Value::take`: moves out the value at
/// a JSON pointer, if there is one.
#[verifier::external_body]
fn json_take_pointer(v: &mut serde_json::Value, pointer: &str) -> (r: Option<serde_json::Value>)
    ensures
        r == json_at(*old(v), pointer@),
        *final(v) == json_after_take(*old(v), pointer@),
{
    v.pointer_mut(pointer).map(serde_json::Value::take)
}

/// Relies on `serde_json::from_value`: reads a list of path strings.
#[verifier::external_body]
fn json_path_list(v: serde_json::Value) -> (r: Result<Vec<String>, String>)
    ensures
        list_result_view(r) == path_list_in(v),
{
    serde_json::from_value::<Vec<String>>(v).map_err(|e| e.to_string())
}

/// The JSON pointer of a configuration field: `/` followed by the name with
/// each `_` read as a level separator.
pub open spec fn pointer_of(field: Seq<char>) -> Seq<char> {
    seq!['/'] + field.map_values(|c: char| if c == '_' { '/' } else { c })
}

/// The JSON pointer of a configuration field.
pub fn field_pointer(field: &str) -> (r: String)
    ensures
        r@ == pointer_of(field@),
{
    let chars = chars_of(field);
    let mut out: Vec<char> = vec!['/'];
    let mut i: usize = 0;
    while i < chars.len()
        invariant
            chars@ == field@,
            i <= chars@.len(),
            out@ == seq!['/'] + chars@.take(i as int).map_values(
                |c: char| if c == '_' { '/' } else { c },
            ),
        decreases chars.len() - i,
    {
        let c = chars[i];
        out.push(if c == '_' { '/' } else { c });
        i = i + 1;
        assert(out@ =~= seq!['/'] + chars@.take(i as int).map_values(
            |c: char| if c == '_' { '/' } else { c },
        ));
    }
    assert(chars@.take(chars@.len() as int) =~= chars@);
    crate::text::string_of(&out)
}

/// The first value among the lookups that parsed.
pub open spec fn first_parsed<T>(lookups: Seq<(String, Option<Result<T, String>>)>) -> Option<T>
    decreases lookups.len(),
{
    if lookups.len() == 0 {
        None
    } else {
        match lookups[0].1 {
            Some(Ok(v)) => Some(v),
            _ => first_parsed(lookups.skip(1)),
        }
    }
}

/// The pointer and description of each lookup that was present but did not
/// parse, in order.
pub open spec fn failed_lookups<T>(lookups: Seq<(String, Option<Result<T, String>>)>) -> Seq<
    (Seq<char>, Seq<char>),
>
    decreases lookups.len(),
{
    if lookups.len() == 0 {
        Seq::empty()
    } else {
        let rest = failed_lookups(lookups.skip(1));
        match lookups[0].1 {
            Some(Err(e)) => seq![(lookups[0].0@, e@)] + rest,
            _ => rest,
        }
    }
}

/// The views of recorded configuration errors.
pub open spec fn error_views(errors: Seq<(String, String)>) -> Seq<(Seq<char>, Seq<char>)> {
    errors.map_values(|e: (String, String)| (e.0@, e.1@))
}

/// Settles one configuration field from its lookups (alias first, then the
/// field itself): the first that parsed wins; if none did, every lookup that
/// was present but failed is recorded, and the default is used.
pub fn pick_field<T>(
    lookups: Vec<(String, Option<Result<T, String>>)>,
    error_sink: &mut Vec<(String, String)>,
    default: T,
) -> (r: T)
    ensures
        match first_parsed(lookups@) {
            Some(v) => r == v && final(error_sink)@ == old(error_sink)@,
            None => r == default && error_views(final(error_sink)@) == error_views(
                old(error_sink)@,
            ) + failed_lookups(lookups@),
        },
        final(error_sink)@.len() >= old(error_sink)@.len(),
        final(error_sink)@.take(old(error_sink)@.len() as int) == old(error_sink)@,
{
    let ghost all = lookups@;
    let mut failures: Vec<(String, String)> = Vec::new();
    let mut rest = lookups;
    let mut k: usize = 0;
    assert(all.len() == rest.len());
    assert(all.skip(0) =~= all);
    while rest.len() > 0
        invariant
            k + rest@.len() == all.len(),
            all.len() <= usize::MAX,
            all == lookups@,
            error_sink@ == old(error_sink)@,
            rest@ == all.skip(k as int),
            first_parsed(all) == first_parsed(all.skip(k as int)),
            error_views(failures@) + failed_lookups(all.skip(k as int)) == failed_lookups(all),
        decreases rest.len(),
    {
        let ghost tail = all.skip(k as int);
        let (pointer, lookup) = rest.remove(0);
        assert(tail[0] == (pointer, lookup));
        assert(tail.skip(1) =~= all.skip(k + 1));
        k = k + 1;
        match lookup {
            Some(Ok(v)) => {
                assert(first_parsed(tail) == Some(v));
                return v;
            },
            Some(Err(e)) => {
                let ghost before = failures@;
                failures.push((pointer, e));
                assert(error_views(failures@) =~= error_views(before) + seq![(pointer@, e@)]);
                assert(error_views(failures@) + failed_lookups(all.skip(k as int)) =~= error_views(
                    before,
                ) + failed_lookups(tail));
            },
            None => {},
        }
    }
    assert(all.skip(k as int) =~= Seq::<(String, Option<Result<T, String>>)>::empty());
    assert(error_views(failures@) =~= failed_lookups(all));
    let ghost start = error_sink@;
    assert(start == old(error_sink)@);
    let ghost found = failures@;
    assert(found.len() == failures.len());
    let mut j: usize = 0;
    assert(found.skip(0) =~= found);
    while failures.len() > 0
        invariant
            j + failures@.len() == found.len(),
            found.len() <= usize::MAX,
            failures@ == found.skip(j as int),
            error_views(error_sink@) == error_views(start) + error_views(found.take(j as int)),
            error_sink@ == start + found.take(j as int),
        decreases failures.len(),
    {
        let f = failures.remove(0);
        let ghost before = error_sink@;
        error_sink.push(f);
        assert(found.skip(j as int).skip(1) =~= found.skip(j + 1));
        assert(found.take(j + 1) =~= found.take(j as int).push(f));
        assert(error_sink@ =~= start + found.take(j + 1));
        assert(error_views(error_sink@) =~= error_views(before) + seq![(f.0@, f.1@)]);
        assert(error_views(found.take(j + 1)) =~= error_views(found.take(j as int)) + seq![
            (f.0@, f.1@),
        ]);
        j = j + 1;
    }
    assert(found.take(j as int) =~= found);
    assert(error_sink@.take(start.len() as int) =~= start);
    default
}

/// One lookup of `pointer` in `json`, parsed with `parse`: absent when the
/// pointer names nothing, else what `parse` made of the value there.
pub open spec fn lookup_made<T, F: Fn(serde_json::Value) -> Result<T, String>>(
    json: serde_json::Value,
    pointer: Seq<char>,
    parse: F,
    l: (String, Option<Result<T, String>>),
) -> bool {
    &&& l.0@ == pointer
    &&& match json_at(json, pointer) {
        None => l.1 is None,
        Some(x) => l.1 matches Some(o) && parse.ensures((x,), o),
    }
}

/// The lookups `get_field` makes: the alias first, if there is one, then
/// the field, each in what the earlier lookup left of `json`.
pub open spec fn lookups_made<T, F: Fn(serde_json::Value) -> Result<T, String>>(
    json: serde_json::Value,
    field: Seq<char>,
    alias: Option<Seq<char>>,
    parse: F,
    lookups: Seq<(String, Option<Result<T, String>>)>,
) -> bool {
    match alias {
        None => lookups.len() == 1 && lookup_made(json, pointer_of(field), parse, lookups[0]),
        Some(a) => {
            &&& lookups.len() == 2
            &&& lookup_made(json, pointer_of(a), parse, lookups[0])
            &&& lookup_made(json_after_take(json, pointer_of(a)), pointer_of(field), parse, lookups[1])
        },
    }
}

/// The text of an optional name.
pub open spec fn opt_name(alias: Option<&str>) -> Option<Seq<char>> {
    match alias {
        Some(a) => Some(a@),
        None => None,
    }
}

/// Reads one configuration field from `json`: the alias, if given, is
/// looked up before the field's own name; each is moved out of `json` and
/// parsed with `parse`. The first that parses wins; if none does, each one
/// present is recorded in `error_sink` and `default` is used.
pub fn get_field<T, F>(
    json: &mut serde_json::Value,
    error_sink: &mut Vec<(String, String)>,
    field: &str,
    alias: Option<&str>,
    default: T,
    parse: F,
) -> (r: T)
    where
        F: Fn(serde_json::Value) -> Result<T, String>,
    requires
        forall|v: serde_json::Value| #[trigger] parse.requires((v,)),
    ensures
        final(error_sink)@.len() >= old(error_sink)@.len(),
        final(error_sink)@.take(old(error_sink)@.len() as int) == old(error_sink)@,
        exists|lookups: Seq<(String, Option<Result<T, String>>)>|
            #[trigger] lookups_made(*old(json), field@, opt_name(alias), parse, lookups) && match first_parsed(lookups) {
                Some(v) => r == v && final(error_sink)@ == old(error_sink)@,
                None => r == default && error_views(final(error_sink)@) == error_views(
                    old(error_sink)@,
                ) + failed_lookups(lookups),
            },
{
    let ghost start = *json;
    let mut lookups: Vec<(String, Option<Result<T, String>>)> = Vec::new();
    if let Some(name) = alias {
        let pointer = field_pointer(name);
        let found = json_take_pointer(json, pointer.as_str());
        let parsed = match found {
            Some(v) => Some(parse(v)),
            None => None,
        };
        lookups.push((pointer, parsed));
    }
    let ghost mid = *json;
    let pointer = field_pointer(field);
    let found = json_take_pointer(json, pointer.as_str());
    let parsed = match found {
        Some(v) => Some(parse(v)),
        None => None,
    };
    lookups.push((pointer, parsed));
    let ghost made = lookups@;
    assert(lookups_made(start, field@, opt_name(alias), parse, made));
    pick_field(lookups, error_sink, default)
}

/// The absolute paths among `l`, in order.
pub open spec fn absolute_entries(l: Seq<Seq<char>>) -> Seq<Seq<char>>
    decreases l.len(),
{
    if l.len() == 0 {
        Seq::empty()
    } else if is_absolute(l.last()) {
        absolute_entries(l.drop_last()).push(l.last())
    } else {
        absolute_entries(l.drop_last())
    }
}

/// One error of the `detachedFiles` field for each relative path in `l`, in
/// order.
pub open spec fn relative_errors(l: Seq<Seq<char>>) -> Seq<(Seq<char>, Seq<char>)>
    decreases l.len(),
{
    if l.len() == 0 {
        Seq::empty()
    } else if is_absolute(l.last()) {
        relative_errors(l.drop_last())
    } else {
        relative_errors(l.drop_last()).push((pointer_of("detachedFiles"@), l.last()))
    }
}

/// The paths held by a list of `AbsPathBuf`s.
pub open spec fn path_views(l: Seq<AbsPathBuf>) -> Seq<Seq<char>> {
    l.map_values(|p: AbsPathBuf| p@)
}

/// The detached files an options object sets: the list at
/// `/detachedFiles`, or none when it is absent or not a list of strings.
pub open spec fn detached_files_in(json: serde_json::Value) -> Seq<Seq<char>> {
    match json_at(json, pointer_of("detachedFiles"@)) {
        Some(x) => match path_list_in(x) {
            Ok(l) => l,
            Err(_) => Seq::empty(),
        },
        None => Seq::empty(),
    }
}

/// The `detachedFiles` entry of an options object is present but not a
/// list of strings.
pub open spec fn detached_files_malformed(json: serde_json::Value) -> bool {
    json_at(json, pointer_of("detachedFiles"@)) matches Some(x) && path_list_in(x) is Err
}

/// The errors an options object gives: the parser's description at
/// `/detachedFiles` when that entry is not a list of strings, then one for
/// each relative path in the list.
pub open spec fn detached_files_errors(json: serde_json::Value) -> Seq<(Seq<char>, Seq<char>)> {
    let parse_errors = match json_at(json, pointer_of("detachedFiles"@)) {
        Some(x) => match path_list_in(x) {
            Ok(_) => Seq::empty(),
            Err(m) => seq![(pointer_of("detachedFiles"@), m)],
        },
        None => Seq::empty(),
    };
    parse_errors + relative_errors(detached_files_in(json))
}

impl Config {
    /// Applies an options object from the client. A null or empty object
    /// changes nothing. Otherwise `detachedFiles` is read from its JSON
    /// pointer; if it is present but does not parse, that is recorded in the
    /// error and no file is detached, and each relative entry is recorded and
    /// skipped.
    pub fn update(&mut self, json: serde_json::Value) -> (r: Result<(), ConfigError>)
        ensures
            final(self).root_path == old(self).root_path,
            final(self).capabilities == old(self).capabilities,
            final(self).workspace_roots == old(self).workspace_roots,
            final(self).discovered_projects == old(self).discovered_projects,
            json_is_null_value(json) || json_is_empty_object_value(json) ==> r is Ok
                && final(self).detached_files == old(self).detached_files,
            !(json_is_null_value(json) || json_is_empty_object_value(json)) ==> {
                &&& path_views(final(self).detached_files@) == absolute_entries(
                    detached_files_in(json),
                )
                &&& (r is Err <==> (detached_files_malformed(json) || relative_errors(
                    detached_files_in(json),
                ).len() > 0))
            },
            r matches Err(e) ==> e.errors@.len() > 0 && error_views(e.errors@)
                == detached_files_errors(json),
    {
        if json_is_null(&json) || json_is_empty_object(&json) {
            return Ok(());
        }
        let ghost start = json;
        let mut json = json;
        let mut errors: Vec<(String, String)> = Vec::new();
        let no_files: Vec<String> = Vec::new();
        let ghost default_files = no_files;
        let files = get_field(
            &mut json,
            &mut errors,
            "detachedFiles",
            None,
            no_files,
            json_path_list,
        );
        proof {
            let lookups = choose|lookups: Seq<(String, Option<Result<Vec<String>, String>>)>|
                #[trigger] lookups_made(start, "detachedFiles"@, opt_name(None), json_path_list, lookups) && match first_parsed(lookups) {
                    Some(v) => files == v && errors@ == Seq::<(String, String)>::empty(),
                    None => files == default_files && error_views(errors@) == error_views(
                        Seq::<(String, String)>::empty(),
                    ) + failed_lookups(lookups),
                };
            assert(lookups.skip(1) =~= Seq::<(String, Option<Result<Vec<String>, String>>)>::empty());
            assert(first_parsed(lookups.skip(1)) == None::<Vec<String>>);
            assert(failed_lookups(lookups.skip(1)) =~= Seq::<(Seq<char>, Seq<char>)>::empty());
            match json_at(start, pointer_of("detachedFiles"@)) {
                Some(x) => {
                    let o = lookups[0].1->0;
                    assert(list_result_view(o) == path_list_in(x));
                    match o {
                        Ok(v) => {
                            assert(first_parsed(lookups) == Some(v));
                        },
                        Err(e) => {
                            assert(first_parsed(lookups) == None::<Vec<String>>);
                            assert(failed_lookups(lookups) =~= seq![(lookups[0].0@, e@)]);
                        },
                    }
                },
                None => {
                    assert(first_parsed(lookups) == None::<Vec<String>>);
                    assert(failed_lookups(lookups) =~= Seq::<(Seq<char>, Seq<char>)>::empty());
                },
            }
            assert(files@.map_values(|s: String| s@) == detached_files_in(start));
            assert(errors@.len() > 0 <==> detached_files_malformed(start));
            assert(error_views(errors@) =~= detached_files_errors(start).take(errors@.len() as int)
                );
            assert(detached_files_errors(start) =~= error_views(errors@) + relative_errors(
                detached_files_in(start),
            ));
        }
        let ghost parse_errors = errors@.len();
        self.detached_files = absolute_paths(files, &mut errors);
        if errors.len() == 0 {
            Ok(())
        } else {
            Err(ConfigError { errors })
        }
    }
}

/// The absolute paths among `files`, in order; each relative one is
/// recorded as an error of the `detachedFiles` field.
fn absolute_paths(files: Vec<String>, errors: &mut Vec<(String, String)>) -> (r: Vec<AbsPathBuf>)
    ensures
        path_views(r@) == absolute_entries(files@.map_values(|s: String| s@)),
        final(errors)@.len() == old(errors)@.len() + relative_errors(
            files@.map_values(|s: String| s@),
        ).len(),
        error_views(final(errors)@) == error_views(old(errors)@) + relative_errors(
            files@.map_values(|s: String| s@),
        ),
{
    let ghost fv = files@.map_values(|s: String| s@);
    let ghost start = errors@;
    let mut out: Vec<AbsPathBuf> = Vec::new();
    let mut i: usize = 0;
    while i < files.len()
        invariant
            i <= files@.len(),
            fv == files@.map_values(|s: String| s@),
            path_views(out@) == absolute_entries(fv.take(i as int)),
            errors@.len() == start.len() + relative_errors(fv.take(i as int)).len(),
            error_views(errors@) == error_views(start) + relative_errors(fv.take(i as int)),
        decreases files.len() - i,
    {
        assert(fv.take(i + 1).drop_last() =~= fv.take(i as int));
        assert(fv.take(i + 1).last() == files@[i as int]@);
        let ghost before_out = out@;
        let ghost before_err = errors@;
        match AbsPathBuf::try_from(files[i].as_str()) {
            Ok(p) => {
                out.push(p);
                assert(path_views(out@) =~= path_views(before_out).push(p@));
            },
            Err(text) => {
                let pointer = field_pointer("detachedFiles");
                errors.push((pointer, text));
                assert(error_views(errors@) =~= error_views(before_err) + seq![(pointer@, text@)]);
                assert(error_views(start) + relative_errors(fv.take(i + 1)) =~= error_views(start)
                    + relative_errors(fv.take(i as int)) + seq![(pointer@, text@)]);
            },
        }
        i = i + 1;
    }
    assert(fv.take(files@.len() as int) =~= fv);
    out
}

} // verus!
