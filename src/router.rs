//! Parsing of request paths into worker routes.
use vstd::prelude::*;
use vstd::string::{StrSliceExecFns, StringExecFns};

use crate::component::{join_path, joined};
use crate::docker::texts;
use crate::error::{WorkerError, WorkerErrorKind};
use crate::model::ComponentPath;

verus! {

/// The verb of an HTTP request.
#[derive(Clone, Debug)]
pub enum HttpMethod {
    Get,
    Post,
    Put,
    Delete,
    Head,
    Options,
    Connect,
    Patch,
    Trace,
    Other(String),
}

pub open spec fn method_text(m: HttpMethod) -> Seq<char> {
    match m {
        HttpMethod::Get => "GET"@,
        HttpMethod::Post => "POST"@,
        HttpMethod::Put => "PUT"@,
        HttpMethod::Delete => "DELETE"@,
        HttpMethod::Head => "HEAD"@,
        HttpMethod::Options => "OPTIONS"@,
        HttpMethod::Connect => "CONNECT"@,
        HttpMethod::Patch => "PATCH"@,
        HttpMethod::Trace => "TRACE"@,
        HttpMethod::Other(s) => s@,
    }
}

impl HttpMethod {
    /// The verb as it is written in a request line.
    pub fn as_text(&self) -> (r: String)
        ensures
            r@ == method_text(*self),
    {
        match self {
            HttpMethod::Get => String::from_str("GET"),
            HttpMethod::Post => String::from_str("POST"),
            HttpMethod::Put => String::from_str("PUT"),
            HttpMethod::Delete => String::from_str("DELETE"),
            HttpMethod::Head => String::from_str("HEAD"),
            HttpMethod::Options => String::from_str("OPTIONS"),
            HttpMethod::Connect => String::from_str("CONNECT"),
            HttpMethod::Patch => String::from_str("PATCH"),
            HttpMethod::Trace => String::from_str("TRACE"),
            HttpMethod::Other(s) => s.clone(),
        }
    }
}

/// The worker's own actions under `/meta/`.
#[derive(Clone, Copy, Debug, PartialEq, Eq, Structural)]
pub enum MetaAction {
    Activate,
    Deactivate,
    Status,
    Logs,
}

/// Where a request goes.
#[derive(Debug)]
pub enum Route {
    Meta(MetaAction),
    /// A call of `method` on the component at `path`, with the path segments after it.
    Serverless { path: ComponentPath, method: String, rest: Vec<String> },
}

/// The pieces of `s` between slashes (one more than it has slashes).
pub open spec fn split_slash(s: Seq<char>) -> Seq<Seq<char>>
    decreases s.len(),
{
    if s.len() == 0 {
        seq![Seq::empty()]
    } else if s.last() == '/' {
        split_slash(s.drop_last()).push(Seq::empty())
    } else {
        let p = split_slash(s.drop_last());
        p.update(p.len() - 1, p.last().push(s.last()))
    }
}

/// The segments of a request path: its pieces between slashes, without the
/// first (the empty piece before the leading slash).
pub open spec fn path_segments(s: Seq<char>) -> Seq<Seq<char>> {
    split_slash(s).drop_first()
}

pub fn path_components(uri_path: &str) -> (r: Vec<String>)
    ensures
        texts(r@) == path_segments(uri_path@),
{
    let n = uri_path.unicode_len();
    let mut done: Vec<String> = Vec::new();
    let mut current = String::new();
    let mut i: usize = 0;
    proof {
        assert(uri_path@.take(0) =~= Seq::<char>::empty());
        assert(texts(done@).push(current@) =~= split_slash(uri_path@.take(0)));
    }
    while i < n
        invariant
            n == uri_path@.len(),
            i <= n,
            texts(done@).push(current@) == split_slash(uri_path@.take(i as int)),
        decreases n - i,
    {
        let c = uri_path.get_char(i);
        let ghost prev = uri_path@.take(i as int);
        let ghost next = uri_path@.take(i as int + 1);
        assert(next.drop_last() =~= prev);
        assert(next.last() == c);
        if c == '/' {
            let finished = current;
            done.push(finished);
            current = String::new();
            assert(texts(done@).push(current@) =~= split_slash(next));
        } else {
            let ghost before = texts(done@).push(current@);
            assert(uri_path@.subrange(i as int, i as int + 1) =~= seq![c]);
            current.append(uri_path.substring_char(i, i + 1));
            assert(current@ =~= before.last().push(c));
            assert(texts(done@).push(current@) =~= before.update(before.len() - 1, before.last().push(c)));
        }
        i = i + 1;
    }
    assert(uri_path@.take(n as int) =~= uri_path@);
    let ghost all = texts(done@).push(current@);
    done.push(current);
    let mut res: Vec<String> = Vec::new();
    let mut j: usize = 1;
    assert(texts(done@) =~= all);
    while j < done.len()
        invariant
            1 <= j <= done@.len(),
            texts(done@) == all,
            texts(res@) == all.subrange(1, j as int),
        decreases done@.len() - j,
    {
        assert(texts(done@)[j as int] == done@[j as int]@);
        let ghost prev = res@;
        res.push(String::from_str(done[j].as_str()));
        assert(texts(res@) =~= texts(prev).push(all[j as int]));
        assert(texts(res@) =~= all.subrange(1, j as int + 1));
        j = j + 1;
    }
    assert(all.subrange(1, all.len() as int) =~= all.drop_first());
    res
}

fn is_text(s: &String, lit: &str) -> (r: bool)
    ensures
        r == (s@ == lit@),
{
    *s == String::from_str(lit)
}

/// The action named by the second segment of a `/meta/` path.
pub open spec fn meta_action(name: Seq<char>) -> Option<MetaAction> {
    if name == "activate"@ {
        Some(MetaAction::Activate)
    } else if name == "deactivate"@ {
        Some(MetaAction::Deactivate)
    } else if name == "status"@ {
        Some(MetaAction::Status)
    } else if name == "logs"@ {
        Some(MetaAction::Logs)
    } else {
        None
    }
}

/// The verb each meta action takes: POST to change the registry, GET to read.
pub open spec fn meta_method_ok(a: MetaAction, m: HttpMethod) -> bool {
    match a {
        MetaAction::Activate | MetaAction::Deactivate => m is Post,
        MetaAction::Status | MetaAction::Logs => m is Get,
    }
}

fn meta_action_of(name: &String) -> (r: Option<MetaAction>)
    ensures
        r == meta_action(name@),
{
    if is_text(name, "activate") {
        Some(MetaAction::Activate)
    } else if is_text(name, "deactivate") {
        Some(MetaAction::Deactivate)
    } else if is_text(name, "status") {
        Some(MetaAction::Status)
    } else if is_text(name, "logs") {
        Some(MetaAction::Logs)
    } else {
        None
    }
}

fn meta_method_matches(a: MetaAction, verb: &HttpMethod) -> (r: bool)
    ensures
        r == meta_method_ok(a, *verb),
{
    match a {
        MetaAction::Activate | MetaAction::Deactivate => matches!(verb, HttpMethod::Post),
        MetaAction::Status | MetaAction::Logs => matches!(verb, HttpMethod::Get),
    }
}

/// Where a request with verb `verb` on path `uri_path` goes:
/// `/meta/<action>` with the action's verb; `/sl/<user>/<repo>/<method>/..`
/// to a component. Any other path is `PathNotFound`, a meta action with the
/// wrong verb `WrongMethod`.
pub fn route(verb: &HttpMethod, uri_path: &str) -> (r: Result<Route, WorkerError>)
    ensures
        ({
            let segs = path_segments(uri_path@);
            if segs.len() == 2 && segs[0] == "meta"@ {
                match meta_action(segs[1]) {
                    Some(a) => if meta_method_ok(a, *verb) {
                        r matches Ok(Route::Meta(x)) && x == a
                    } else {
                        r matches Err(e) && e.kind is WrongMethod
                    },
                    None => r matches Err(e) && e.kind matches WorkerErrorKind::PathNotFound(p) && p@ == "meta/"@
                        + segs[1],
                }
            } else if segs.len() >= 4 && segs[0] == "sl"@ {
                r matches Ok(Route::Serverless { path, method, rest }) && path@ == (segs[1], segs[2]) && method@
                    == segs[3] && texts(rest@) == segs.subrange(4, segs.len() as int)
            } else {
                r matches Err(e) && e.kind matches WorkerErrorKind::PathNotFound(p) && p@ == joined(segs)
            }
        }),
{
    let segs = path_components(uri_path);
    let ghost sv = texts(segs@);
    if segs.len() == 2 && is_text(&segs[0], "meta") {
        match meta_action_of(&segs[1]) {
            Some(a) => {
                if meta_method_matches(a, verb) {
                    Ok(Route::Meta(a))
                } else {
                    Err(WorkerError::new(WorkerErrorKind::WrongMethod))
                }
            },
            None => {
                let mut p = String::from_str("meta/");
                p.append(segs[1].as_str());
                Err(WorkerError::new(WorkerErrorKind::PathNotFound(p)))
            },
        }
    } else if segs.len() >= 4 && is_text(&segs[0], "sl") {
        let user = String::from_str(segs[1].as_str());
        let repo = String::from_str(segs[2].as_str());
        let method = String::from_str(segs[3].as_str());
        let mut rest: Vec<String> = Vec::new();
        let mut k: usize = 4;
        while k < segs.len()
            invariant
                4 <= k <= segs@.len(),
                sv == texts(segs@),
                texts(rest@) == sv.subrange(4, k as int),
            decreases segs@.len() - k,
        {
            assert(sv[k as int] == segs@[k as int]@);
            let ghost prev = rest@;
            rest.push(String::from_str(segs[k].as_str()));
            assert(texts(rest@) =~= texts(prev).push(sv[k as int]));
            assert(texts(rest@) =~= sv.subrange(4, k as int + 1));
            k = k + 1;
        }
        Ok(Route::Serverless { path: ComponentPath::new(user, repo), method, rest })
    } else {
        let p = join_path(&segs);
        Err(WorkerError::new(WorkerErrorKind::PathNotFound(p)))
    }
}

} // verus!
