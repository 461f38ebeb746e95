use vstd::prelude::*;

use crate::text::{
    after_first, append_chars, before_first, chars_of, contains_brackets, find_char, has_brackets,
    index_of, lemma_index_of, split_words, string_of, views, words,
};
use crate::{
    find_app, CredentialError, CredentialRequest, GithubKeychainConfig, ParseError, RequestView,
};

verus! {

/// The attribute name of a request line: what stands before its first `=`.
pub open spec fn line_name(line: Seq<char>) -> Seq<char> {
    before_first(line, '=')
}

/// The attribute value of a request line: what stands between its first and second `=`.
pub open spec fn line_value(line: Seq<char>) -> Seq<char> {
    before_first(after_first(line, '='), '=')
}

/// The request that one line makes of `v`: none when the line is refused.
pub open spec fn apply_line(v: RequestView, line: Seq<char>) -> Option<RequestView> {
    let name = line_name(line);
    let value = line_value(line);
    if !line.contains('=') {
        None
    } else if has_brackets(name) {
        Some(v)
    } else if name == "username"@ {
        Some(RequestView { username: value, ..v })
    } else if name == "host"@ {
        Some(RequestView { host: value, ..v })
    } else if name == "protocol"@ {
        Some(RequestView { protocol: value, ..v })
    } else if name == "path"@ {
        Some(RequestView { path: value, ..v })
    } else if name == "password"@ {
        Some(v)
    } else {
        None
    }
}

/// The request that `lines`, applied in order, make of `v`: none when one is refused.
pub open spec fn apply_lines(v: RequestView, lines: Seq<Seq<char>>) -> Option<RequestView>
    decreases lines.len(),
{
    if lines.len() == 0 {
        Some(v)
    } else {
        match apply_line(v, lines[0]) {
            Some(w) => apply_lines(w, lines.drop_first()),
            None => None,
        }
    }
}

/// The lines of a request text: split at line feeds, up to the first empty line.
pub open spec fn request_lines(text: Seq<char>) -> Seq<Seq<char>>
    decreases text.len(),
{
    let k = index_of(text, '\n');
    if 0 < k && k < text.len() {
        seq![text.take(k)] + request_lines(text.skip(k + 1))
    } else if 0 < k && k == text.len() {
        seq![text]
    } else {
        Seq::empty()
    }
}

proof fn lemma_attribute_names_differ()
    ensures
        "username"@ != "host"@,
        "username"@ != "protocol"@,
        "username"@ != "path"@,
        "username"@ != "password"@,
        "host"@ != "protocol"@,
        "host"@ != "path"@,
        "host"@ != "password"@,
        "protocol"@ != "path"@,
        "protocol"@ != "password"@,
        "path"@ != "password"@,
{
    reveal_strlit("username");
    reveal_strlit("host");
    reveal_strlit("protocol");
    reveal_strlit("path");
    reveal_strlit("password");
    assert("username"@[0] != "protocol"@[0]);
    assert("username"@[0] != "password"@[0]);
    assert("protocol"@[1] != "password"@[1]);
    assert("host"@[0] != "path"@[0]);
    assert("path"@.len() != "password"@.len());
}

/// Applies one `name=value` line of the request protocol to `input`.
/// A line without `=`, or with an unknown name, is an error; a name holding
/// `[]` (a multi-valued capability) and `password` leave `input` as it is.
pub fn parse_line(line: String, input: CredentialRequest) -> (r: Result<CredentialRequest, ParseError>)
    ensures
        r is Ok <==> apply_line(input@, line@) is Some,
        r is Ok ==> r->Ok_0@ == apply_line(input@, line@)->0,
{
    let mut input = input;
    let v = chars_of(line.as_str());
    let k = find_char(&v, 0, '=');
    proof {
        assert(v@.skip(0) =~= v@);
        lemma_index_of(v@, '=');
    }
    if k == v.len() {
        return Err(ParseError { reason: "line needs =".to_owned() });
    }
    let name = string_of(&v, 0, k);
    assert(name@ =~= line_name(line@));
    let name_chars = chars_of(name.as_str());
    if contains_brackets(&name_chars) {
        return Ok(input);
    }
    let e = find_char(&v, k + 1, '=');
    let value = string_of(&v, k + 1, e);
    assert(value@ =~= line_value(line@));
    proof {
        lemma_attribute_names_differ();
    }
    if name == "username".to_owned() {
        input.username = value;
    } else if name == "host".to_owned() {
        input.host = value;
    } else if name == "protocol".to_owned() {
        input.protocol = value;
    } else if name == "path".to_owned() {
        input.path = value;
    } else if name == "password".to_owned() {
    } else {
        return Err(ParseError { reason: "unknown attribute".to_owned() });
    }
    Ok(input)
}

proof fn lemma_request_lines_step(text: Seq<char>, pos: int, e: int)
    requires
        0 <= pos <= e <= text.len(),
        e == pos + index_of(text.skip(pos), '\n'),
    ensures
        e == pos ==> request_lines(text.skip(pos)) == Seq::<Seq<char>>::empty(),
        pos < e < text.len() ==> request_lines(text.skip(pos)) == seq![text.subrange(pos, e)]
            + request_lines(text.skip(e + 1)),
        pos < e == text.len() ==> request_lines(text.skip(pos)) == seq![text.subrange(pos, e)],
{
    let t = text.skip(pos);
    lemma_index_of(t, '\n');
    if pos < e < text.len() {
        assert(t.take(e - pos) =~= text.subrange(pos, e));
        assert(t.skip(e - pos + 1) =~= text.skip(e + 1));
    } else if pos < e {
        assert(t =~= text.subrange(pos, e));
    }
}

/// Applies the lines of a request text to `input` in order, up to the first
/// empty line; the first line refused makes the whole text an error.
pub fn parse_input(text: String, input: CredentialRequest) -> (r: Result<CredentialRequest, ParseError>)
    ensures
        r is Ok <==> apply_lines(input@, request_lines(text@)) is Some,
        r is Ok ==> r->Ok_0@ == apply_lines(input@, request_lines(text@))->0,
{
    let ghost goal = apply_lines(input@, request_lines(text@));
    let mut cur = input;
    let v = chars_of(text.as_str());
    let mut pos: usize = 0;
    assert(v@.skip(0) =~= v@);
    loop
        invariant
            v@ == text@,
            goal == apply_lines(input@, request_lines(text@)),
            pos <= v@.len(),
            goal == apply_lines(cur@, request_lines(v@.skip(pos as int))),
        ensures
            goal is Some,
            cur@ == goal->0,
        decreases v@.len() - pos,
    {
        let e = find_char(&v, pos, '\n');
        proof {
            lemma_request_lines_step(v@, pos as int, e as int);
        }
        if e == pos {
            break;
        }
        let line = string_of(&v, pos, e);
        proof {
            let ls = request_lines(v@.skip(pos as int));
            assert(ls[0] == line@);
            if e < v@.len() {
                assert(ls.drop_first() =~= request_lines(v@.skip(e + 1)));
            } else {
                assert(ls.drop_first() =~= Seq::<Seq<char>>::empty());
            }
        }
        let ghost before = cur@;
        cur = match parse_line(line, cur) {
            Ok(next) => next,
            Err(err) => {
                assert(goal is None);
                let r: Result<CredentialRequest, ParseError> = Err(err);
                assert(!(r is Ok));

                return r;
            },
        };
        if e == v.len() {
            assert(apply_lines(cur@, Seq::<Seq<char>>::empty()) == Some(cur@));
            assert(goal == apply_lines(cur@, Seq::<Seq<char>>::empty()));
            break;
        }
        pos = e + 1;
    }
    Ok(cur)
}

/// An error value carrying `msg`.
pub fn credential_error(msg: &str) -> (r: Box<CredentialError>)
    ensures
        r.0@ == msg@,
{
    Box::new(CredentialError(msg.to_owned()))
}

/// The request that `login` authenticates for: the client id given, else the
/// default binding's client id. `None` means neither applies and the request
/// is to be read from the input.
pub fn resolve_username(client_id: Option<&String>, config: GithubKeychainConfig) -> (r: Option<
    CredentialRequest,
>)
    requires
        client_id is Some || config.app_configs is Some,
    ensures
        client_id is Some ==> r is Some && r->0.username@ == client_id->0@,
        client_id is None ==> (r is Some <==> find_app(config.app_seq(), "default"@) is Some),
        client_id is None && r is Some ==> r->0.username@ == find_app(
            config.app_seq(),
            "default"@,
        )->0.client_id@,
        r is Some ==> {
            &&& r->0.host@ == "github.com"@
            &&& r->0.protocol@.len() == 0
            &&& r->0.path@.len() == 0
            &&& r->0.port@.len() == 0
            &&& r->0.config == config
        },
{
    match client_id {
        Some(id) => {
            let mut conf = CredentialRequest::empty(config);
            conf.username = id.clone();
            Some(conf)
        },
        None => {
            match config.default_config() {
                Some(app_config) => {
                    let mut conf = CredentialRequest::empty(config);
                    conf.username = app_config.client_id;
                    Some(conf)
                },
                None => None,
            }
        },
    }
}

/// A helper command line: the program and its arguments.
#[derive(Debug)]
pub struct FallbackCommand {
    pub program: String,
    pub args: Vec<String>,
}

/// The first word names a program by its absolute path.
pub open spec fn names_path(w: Seq<char>) -> bool {
    w.len() > 0 && w[0] == '/'
}

/// The program that runs the fallback helper whose command words are `ws`:
/// an absolute path as it stands, anything else through `git`.
pub open spec fn fallback_program(ws: Seq<Seq<char>>) -> Seq<char> {
    if names_path(ws[0]) {
        ws[0]
    } else {
        "git"@
    }
}

/// The arguments of the fallback helper whose command words are `ws`: a helper
/// run through `git` is named `credential-<word>`; the other words follow, then `get`.
pub open spec fn fallback_args(ws: Seq<Seq<char>>) -> Seq<Seq<char>> {
    (if names_path(ws[0]) {
        Seq::empty()
    } else {
        seq!["credential-"@ + ws[0]]
    }) + ws.drop_first() + seq!["get"@]
}

/// The command line that runs the configured fallback helper; none when the
/// configured text holds no word.
pub fn fallback_command(fallback: &str) -> (r: Option<FallbackCommand>)
    ensures
        r is None <==> words(fallback@).len() == 0,
        r is Some ==> r->0.program@ == fallback_program(words(fallback@)),
        r is Some ==> views(r->0.args@) == fallback_args(words(fallback@)),
{
    let ws = split_words(fallback);
    if ws.len() == 0 {
        return None;
    }
    assert(views(ws@)[0] == ws@[0]@);
    let first = chars_of(ws[0].as_str());
    let mut args: Vec<String> = Vec::new();
    let program = if first.len() > 0 && first[0] == '/' {
        ws[0].clone()
    } else {
        let mut named = "credential-".to_owned();
        append_chars(&mut named, &first);
        args.push(named);
        "git".to_owned()
    };
    let ghost lead = views(args@);
    let mut i: usize = 1;
    assert(views(ws@).subrange(1, 1) =~= Seq::<Seq<char>>::empty());
    assert(views(args@) =~= lead + views(ws@).subrange(1, 1));
    while i < ws.len()
        invariant
            1 <= i <= ws@.len(),
            views(args@) == lead + views(ws@).subrange(1, i as int),
        decreases ws@.len() - i,
    {
        let w = ws[i].clone();
        proof {
            assert(views(args@.push(w)) =~= views(args@).push(w@));
            assert(views(ws@).subrange(1, i + 1) =~= views(ws@).subrange(1, i as int).push(w@));
        }
        args.push(w);
        i = i + 1;
    }
    let get = "get".to_owned();
    proof {
        assert(views(args@.push(get)) =~= views(args@).push(get@));
        assert(views(ws@).subrange(1, ws@.len() as int) =~= views(ws@).drop_first());
    }
    args.push(get);
    assert(views(args@) =~= fallback_args(words(fallback@)));
    Some(FallbackCommand { program, args })
}

/// The request handed to the fallback helper on its input.
pub fn fallback_input(host: &String) -> (r: String)
    ensures
        r@ == "host="@ + host@ + "\nprotocol=https\n"@,
{
    let mut out = "host=".to_owned();
    append_chars(&mut out, &chars_of(host.as_str()));
    append_chars(&mut out, &chars_of("\nprotocol=https\n"));
    out
}

} // verus!
