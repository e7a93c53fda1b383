use vstd::prelude::*;

use crate::error::KubectlError;
use crate::model::{Namespace, Service};
use crate::pipeline::texts;
use crate::ports::PortMap;

verus! {

/// What `String::from_utf8` makes of a byte sequence: its text, or nothing
/// where the bytes are not valid UTF-8.
pub uninterp spec fn utf8_text(bytes: Seq<u8>) -> Option<Seq<char>>;

/// What `str::trim` makes of a text.
pub uninterp spec fn trimmed(text: Seq<char>) -> Seq<char>;

/// What `str::lines` makes of a text: its lines, without line endings.
pub uninterp spec fn lines_of(text: Seq<char>) -> Seq<Seq<char>>;

/// Relies on `String::from_utf8`: it succeeds exactly on valid UTF-8, and its
/// text depends on the bytes alone.
#[verifier::external_body]
fn decode_utf8(bytes: Vec<u8>) -> (r: Option<String>)
    ensures
        match r {
            Some(s) => utf8_text(bytes@) == Some(s@),
            None => utf8_text(bytes@) is None,
        },
{
    String::from_utf8(bytes).ok()
}

/// Relies on `str::trim`: leading and trailing whitespace removed.
#[verifier::external_body]
fn trim_text(text: &str) -> (r: String)
    ensures
        r@ == trimmed(text@),
        r@.len() <= text@.len(),
{
    text.trim().to_string()
}

/// Relies on `str::lines`: the text split into its lines.
#[verifier::external_body]
fn split_lines(text: &str) -> (r: Vec<String>)
    ensures
        texts(r@) == lines_of(text@),
{
    text.lines().map(String::from).collect()
}

/// The digit character for `d`, below ten.
pub open spec fn digit_char(d: nat) -> char {
    if d == 0 {
        '0'
    } else if d == 1 {
        '1'
    } else if d == 2 {
        '2'
    } else if d == 3 {
        '3'
    } else if d == 4 {
        '4'
    } else if d == 5 {
        '5'
    } else if d == 6 {
        '6'
    } else if d == 7 {
        '7'
    } else if d == 8 {
        '8'
    } else {
        '9'
    }
}

/// The decimal digits of `n`, without leading zeros.
pub open spec fn decimal(n: nat) -> Seq<char>
    decreases n,
{
    if n < 10 {
        seq![digit_char(n)]
    } else {
        decimal(n / 10) + seq![digit_char(n % 10)]
    }
}

fn digit_str(d: u16) -> (r: &'static str)
    requires
        d < 10,
    ensures
        r@ == seq![digit_char(d as nat)],
{
    proof {
        reveal_strlit("0");
        reveal_strlit("1");
        reveal_strlit("2");
        reveal_strlit("3");
        reveal_strlit("4");
        reveal_strlit("5");
        reveal_strlit("6");
        reveal_strlit("7");
        reveal_strlit("8");
        reveal_strlit("9");
    }
    let r = if d == 0 {
        "0"
    } else if d == 1 {
        "1"
    } else if d == 2 {
        "2"
    } else if d == 3 {
        "3"
    } else if d == 4 {
        "4"
    } else if d == 5 {
        "5"
    } else if d == 6 {
        "6"
    } else if d == 7 {
        "7"
    } else if d == 8 {
        "8"
    } else {
        "9"
    };
    assert(r@ =~= seq![digit_char(d as nat)]);
    r
}

/// `text` followed by the decimal digits of `n`.
fn append_decimal(text: String, n: u16) -> (r: String)
    ensures
        r@ == text@ + decimal(n as nat),
    decreases n,
{
    if n < 10 {
        text.concat(digit_str(n))
    } else {
        let head = append_decimal(text, n / 10);
        let r = head.concat(digit_str(n % 10));
        assert(r@ =~= text@ + decimal(n as nat));
        r
    }
}

/// The argument `<local>:<remote>` that forwards one port.
pub fn port_pair(local: u16, remote: u16) -> (r: String)
    ensures
        r@ == decimal(local as nat) + seq![':'] + decimal(remote as nat),
{
    proof {
        reveal_strlit(":");
    }
    let r = append_decimal(String::new(), local);
    let r = r.concat(":");
    let r = append_decimal(r, remote);
    assert(r@ =~= decimal(local as nat) + seq![':'] + decimal(remote as nat));
    r
}

/// The output of the cluster tool as text: fails where it exited with a
/// failure status, or where its output is not valid UTF-8.
pub fn command_text(success: bool, stdout: Vec<u8>) -> (r: Result<String, KubectlError>)
    ensures
        !success ==> r == Err::<String, KubectlError>(KubectlError::CommandFailed),
        success && utf8_text(stdout@) is None ==> r == Err::<String, KubectlError>(
            KubectlError::ParseOutput,
        ),
        success && utf8_text(stdout@) is Some ==> r is Ok && r->Ok_0@ == utf8_text(stdout@)->0,
{
    if !success {
        return Err(KubectlError::CommandFailed);
    }
    match decode_utf8(stdout) {
        Some(text) => Ok(text),
        None => Err(KubectlError::ParseOutput),
    }
}

/// The current context named by the output of `config current-context`.
pub fn current_context(success: bool, stdout: Vec<u8>) -> (r: Result<String, KubectlError>)
    ensures
        !success ==> r == Err::<String, KubectlError>(KubectlError::CommandFailed),
        success && utf8_text(stdout@) is None ==> r == Err::<String, KubectlError>(
            KubectlError::ParseOutput,
        ),
        success && utf8_text(stdout@) is Some ==> r is Ok && r->Ok_0@ == trimmed(
            utf8_text(stdout@)->0,
        ),
{
    let text = command_text(success, stdout)?;
    Ok(trim_text(text.as_str()))
}

/// The contexts listed, one per line, by the output of `config get-contexts`.
pub fn contexts(success: bool, stdout: Vec<u8>) -> (r: Result<Vec<String>, KubectlError>)
    ensures
        !success ==> r == Err::<Vec<String>, KubectlError>(KubectlError::CommandFailed),
        success && utf8_text(stdout@) is None ==> r == Err::<Vec<String>, KubectlError>(
            KubectlError::ParseOutput,
        ),
        success && utf8_text(stdout@) is Some ==> r is Ok && texts(r->Ok_0@) == lines_of(
            trimmed(utf8_text(stdout@)->0),
        ),
{
    let text = command_text(success, stdout)?;
    let trimmed_text = trim_text(text.as_str());
    Ok(split_lines(trimmed_text.as_str()))
}

/// The outcome of `config use-context`.
pub fn use_context_result(success: bool) -> (r: Result<(), KubectlError>)
    ensures
        success <==> r is Ok,
        !success ==> r == Err::<(), KubectlError>(KubectlError::CommandFailed),
{
    if success {
        Ok(())
    } else {
        Err(KubectlError::CommandFailed)
    }
}

fn strs(items: &[&str]) -> (r: Vec<String>)
    ensures
        r@.len() == items@.len(),
        forall|i: int| 0 <= i < items@.len() ==> #[trigger] r@[i]@ == items@[i]@,
{
    let mut r: Vec<String> = Vec::new();
    let mut i: usize = 0;
    while i < items.len()
        invariant
            i <= items@.len(),
            r@.len() == i,
            forall|j: int| 0 <= j < i ==> #[trigger] r@[j]@ == items@[j]@,
        decreases items@.len() - i,
    {
        r.push(String::from_str(items[i]));
        i = i + 1;
    }
    r
}

/// The arguments that ask for the current context.
pub fn current_context_args() -> (r: Vec<String>)
    ensures
        texts(r@) == seq!["config"@, "current-context"@],
{
    let r = strs(&["config", "current-context"]);
    assert(texts(r@) =~= seq!["config"@, "current-context"@]);
    r
}

/// The arguments that list the contexts, one name per line.
pub fn get_contexts_args() -> (r: Vec<String>)
    ensures
        texts(r@) == seq!["config"@, "get-contexts"@, "--output=name"@],
{
    let r = strs(&["config", "get-contexts", "--output=name"]);
    assert(texts(r@) =~= seq!["config"@, "get-contexts"@, "--output=name"@]);
    r
}

/// The arguments that make `context` the current context.
pub fn use_context_args(context: &String) -> (r: Vec<String>)
    ensures
        texts(r@) == seq!["config"@, "use-context"@, context@],
{
    let mut r = strs(&["config", "use-context"]);
    r.push(context.clone());
    assert(texts(r@) =~= seq!["config"@, "use-context"@, context@]);
    r
}

/// The arguments that list the namespaces as JSON.
pub fn get_namespaces_args() -> (r: Vec<String>)
    ensures
        texts(r@) == seq!["get"@, "namespaces"@, "--output=json"@],
{
    let r = strs(&["get", "namespaces", "--output=json"]);
    assert(texts(r@) =~= seq!["get"@, "namespaces"@, "--output=json"@]);
    r
}

/// The arguments that list the services of `namespace` as JSON.
pub fn get_services_args(namespace: &String) -> (r: Vec<String>)
    ensures
        texts(r@) == seq!["--namespace"@, namespace@, "get"@, "services"@, "--output=json"@],
{
    let mut r = strs(&["--namespace"]);
    r.push(namespace.clone());
    r.push(String::from_str("get"));
    r.push(String::from_str("services"));
    r.push(String::from_str("--output=json"));
    assert(texts(r@) =~= seq!["--namespace"@, namespace@, "get"@, "services"@, "--output=json"@]);
    r
}

/// The `<local>:<remote>` arguments of `ports`, in the order of `remotes`.
pub open spec fn pair_args(remotes: Seq<u16>, ports: Map<u16, u16>) -> Seq<Seq<char>> {
    remotes.map_values(
        |p: u16| decimal(ports[p] as nat) + seq![':'] + decimal(p as nat),
    )
}

/// The arguments that forward the remote ports of `service` in `namespace` to
/// the local ports given by `ports`: one `<local>:<remote>` pair per remote
/// port, each remote port once.
pub fn forward_args(namespace: &Namespace, service: &Service, ports: &PortMap) -> (r: Vec<String>)
    ensures
        r@.len() == 4 + ports@.dom().len(),
        texts(r@).take(4) == seq![
            "--namespace"@,
            namespace.metadata.name@,
            "port-forward"@,
            "service/"@ + service.metadata.name@,
        ],
        exists|remotes: Seq<u16>|
            {
                &&& remotes.no_duplicates()
                &&& forall|p: u16| remotes.contains(p) <==> ports@.contains_key(p)
                &&& #[trigger] texts(r@).skip(4) == pair_args(remotes, ports@)
            },
{
    let mut r = strs(&["--namespace"]);
    r.push(namespace.metadata.name.clone());
    r.push(String::from_str("port-forward"));
    r.push(String::from_str("service/").concat(service.metadata.name.as_str()));
    let remotes = ports.remote_ports();
    let mut i: usize = 0;
    while i < remotes.len()
        invariant
            i <= remotes@.len(),
            r@.len() == 4 + i,
            texts(r@).take(4) == seq![
                "--namespace"@,
                namespace.metadata.name@,
                "port-forward"@,
                "service/"@ + service.metadata.name@,
            ],
            forall|p: u16| remotes@.contains(p) <==> ports@.contains_key(p),
            texts(r@).skip(4) == pair_args(remotes@.take(i as int), ports@),
        decreases remotes@.len() - i,
    {
        let remote = remotes[i];
        assert(remotes@.contains(remote));
        assert(ports@.contains_key(remote));
        let local = match ports.get(remote) {
            Some(l) => l,
            None => 0,
        };
        let ghost before = texts(r@);
        r.push(port_pair(local, remote));
        proof {
            assert(texts(r@) =~= before.push(decimal(local as nat) + seq![':'] + decimal(remote as nat)));
            assert(texts(r@).take(4) =~= before.take(4));
            assert(remotes@.take(i + 1) =~= remotes@.take(i as int).push(remote));
            assert(pair_args(remotes@.take(i + 1), ports@) =~= pair_args(remotes@.take(i as int), ports@).push(
                decimal(local as nat) + seq![':'] + decimal(remote as nat),
            ));
            assert(texts(r@).skip(4) =~= before.skip(4).push(
                decimal(local as nat) + seq![':'] + decimal(remote as nat),
            ));
        }
        i = i + 1;
    }
    assert(remotes@.take(i as int) =~= remotes@);
    assert(texts(r@).skip(4) == pair_args(remotes@, ports@));
    r
}

} // verus!
