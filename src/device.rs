//! Choice of the output device: a name requested by the user is matched
//! case-insensitively against the devices' names, with a fallback to the
//! system default device.
use vstd::prelude::*;
use crate::errors::Error;

verus! {

/// What `str::to_lowercase` makes of a string.
pub uninterp spec fn lower_of(s: Seq<char>) -> Seq<char>;

/// Relies on `str::to_lowercase`: the lowercase form of a string depends on
/// its characters alone.
#[verifier::external_body]
fn lowercase(s: &str) -> (r: String)
    ensures
        r@ == lower_of(s@),
{
    s.to_lowercase()
}

/// What the `Debug` formatting of a `str` makes of a string: the text in
/// double quotes, with quotes, backslashes and control characters escaped.
pub uninterp spec fn debug_of(s: Seq<char>) -> Seq<char>;

/// Relies on `<str as Debug>::fmt` through `format!("{:?}")`: the quoted,
/// escaped form of a string depends on its characters alone.
#[verifier::external_body]
fn debug_quoted(s: &str) -> (r: String)
    ensures
        r@ == debug_of(s@),
{
    format!("{:?}", s)
}

/// The device a resolution settled on.
#[derive(Debug, Clone, Copy, PartialEq, Eq, Structural)]
pub enum DeviceChoice {
    /// The device at this position of the enumerated list.
    Named(usize),
    /// The system default output device.
    Default,
}

/// Outcome of a successful resolution.
#[derive(Debug)]
pub struct Resolution {
    pub choice: DeviceChoice,
    /// Positions of the devices, scanned before the choice was made, whose
    /// name could not be read; they were skipped.
    pub unreadable: Vec<usize>,
    /// True when a name was requested, none matched, and the default device
    /// was taken instead.
    pub fell_back: bool,
}

/// The names as character sequences; `None` stands for an unreadable name.
pub open spec fn name_views(names: Seq<Option<String>>) -> Seq<Option<Seq<char>>> {
    names.map_values(|o: Option<String>| match o {
        Some(n) => Some(n@),
        None => None,
    })
}

/// The lowercase form of each readable name.
pub open spec fn folded_views(names: Seq<Option<String>>) -> Seq<Option<Seq<char>>> {
    names.map_values(|o: Option<String>| match o {
        Some(n) => Some(lower_of(n@)),
        None => None,
    })
}

/// `i` is the position of the first name equal to `q`.
pub open spec fn is_first_match(names: Seq<Option<Seq<char>>>, q: Seq<char>, i: int) -> bool {
    &&& 0 <= i < names.len()
    &&& names[i] == Some(q)
    &&& forall|j: int| 0 <= j < i ==> #[trigger] names[j] != Some(q)
}

/// No name equals `q`.
pub open spec fn no_match(names: Seq<Option<Seq<char>>>, q: Seq<char>) -> bool {
    forall|j: int| 0 <= j < names.len() ==> #[trigger] names[j] != Some(q)
}

/// Positions below `end` whose name is unreadable, in increasing order.
pub open spec fn unreadable_below(names: Seq<Option<Seq<char>>>, end: nat) -> Seq<usize>
    decreases end,
{
    if end == 0 {
        Seq::empty()
    } else {
        let prev = unreadable_below(names, (end - 1) as nat);
        if names[end - 1] is None {
            prev.push((end - 1) as usize)
        } else {
            prev
        }
    }
}

/// The outcome owed when query `q` (the comparable form of `requested`) is
/// looked up among `names`: the first equal name if there is one; else the
/// default device if there is one; else an error that names `requested`.
pub open spec fn selected(
    requested: Seq<char>,
    q: Seq<char>,
    names: Seq<Option<Seq<char>>>,
    has_default: bool,
    r: Result<Resolution, Error>,
) -> bool {
    &&& forall|i: int|
        #[trigger] is_first_match(names, q, i) ==> (r matches Ok(res) && res.choice
            == DeviceChoice::Named(i as usize) && !res.fell_back && res.unreadable@
            == unreadable_below(names, i as nat))
    &&& no_match(names, q) && has_default ==> (r matches Ok(res) && res.choice
        == DeviceChoice::Default && res.fell_back && res.unreadable@ == unreadable_below(
        names,
        names.len(),
    ))
    &&& no_match(names, q) && !has_default ==> (r matches Err(Error::DevicesError(m)) && m@
        == unmatched_message(requested))
}

/// Message of the failure when no device was requested and there is no default.
pub open spec fn no_default_message() -> Seq<char> {
    "no output device available"@
}

/// Message of the failure when the requested name matched nothing and there
/// is no default device; the name appears quoted and escaped.
pub open spec fn unmatched_message(requested: Seq<char>) -> Seq<char> {
    "could not set "@ + debug_of(requested) + " as output device\nno output devices found."@
}

/// Picks a device given the lowercase form of the requested name and of each
/// device's name (`None` where a name could not be read). The first device
/// whose name equals the query is taken; else the default device, if
/// `has_default`; else the error names `requested`.
pub fn select_device(
    requested: &str,
    folded_query: &String,
    folded_names: &Vec<Option<String>>,
    has_default: bool,
) -> (r: Result<Resolution, Error>)
    ensures
        selected(requested@, folded_query@, name_views(folded_names@), has_default, r),
{
    let n = folded_names.len();
    let mut unreadable: Vec<usize> = Vec::new();
    let mut i: usize = 0;
    while i < n
        invariant
            n == folded_names@.len(),
            i <= n,
            forall|j: int| 0 <= j < i ==> #[trigger] name_views(folded_names@)[j] != Some(folded_query@),
            unreadable@ == unreadable_below(name_views(folded_names@), i as nat),
        decreases n - i,
    {
        match &folded_names[i] {
            Some(name) => {
                if *name == *folded_query {
                    proof {
                        let v = name_views(folded_names@);
                        assert(is_first_match(v, folded_query@, i as int));
                        assert forall|k: int| is_first_match(v, folded_query@, k) implies k == i by {
                            if k > i {
                                assert(v[i as int] != Some(folded_query@));
                            }
                        }
                    }
                    return Ok(Resolution { choice: DeviceChoice::Named(i), unreadable, fell_back: false });
                }
            },
            None => {
                unreadable.push(i);
            },
        }
        i = i + 1;
    }
    proof {
        let v = name_views(folded_names@);
        assert forall|k: int| !is_first_match(v, folded_query@, k) by {
            if 0 <= k < n {
                assert(v[k] != Some(folded_query@));
            }
        }
    }
    if has_default {
        Ok(Resolution { choice: DeviceChoice::Default, unreadable, fell_back: true })
    } else {
        let quoted = debug_quoted(requested);
        let mut m = String::from_str("could not set ");
        m.append(quoted.as_str());
        m.append(" as output device\nno output devices found.");
        Err(Error::DevicesError(m))
    }
}

/// Resolves the output device. With no requested name the default device is
/// taken, and the resolution fails without one. With a name, the devices'
/// names are compared with it case-insensitively as `select_device` says.
pub fn resolve_device(requested: Option<&str>, names: &Vec<Option<String>>, has_default: bool) -> (r:
    Result<Resolution, Error>)
    ensures
        requested is None && has_default ==> (r matches Ok(res) && res.choice == DeviceChoice::Default
            && !res.fell_back && res.unreadable@.len() == 0),
        requested is None && !has_default ==> (r matches Err(Error::DevicesError(m)) && m@
            == no_default_message()),
        requested matches Some(q) ==> selected(q@, lower_of(q@), folded_views(names@), has_default, r),
        requested matches Some(q) && no_match(folded_views(names@), lower_of(q@)) && has_default ==> (
        r matches Ok(res) && res.choice == DeviceChoice::Default && res.fell_back),
        requested is Some && names@.len() == 0 && !has_default ==> (r matches Err(
            Error::DevicesError(_),
        )),
{
    match requested {
        None => {
            if has_default {
                Ok(Resolution { choice: DeviceChoice::Default, unreadable: Vec::new(), fell_back: false })
            } else {
                Err(Error::DevicesError(String::from_str("no output device available")))
            }
        },
        Some(q) => {
            let folded_query = lowercase(q);
            let folded_names = fold_names(names);
            select_device(q, &folded_query, &folded_names, has_default)
        },
    }
}

/// The lowercase form of each readable name; unreadable ones stay `None`.
fn fold_names(names: &Vec<Option<String>>) -> (r: Vec<Option<String>>)
    ensures
        name_views(r@) == folded_views(names@),
{
    let mut out: Vec<Option<String>> = Vec::new();
    let mut i: usize = 0;
    while i < names.len()
        invariant
            i <= names@.len(),
            out@.len() == i,
            forall|j: int|
                0 <= j < i ==> match (#[trigger] names@[j], out@[j]) {
                    (Some(a), Some(b)) => b@ == lower_of(a@),
                    (None, None) => true,
                    _ => false,
                },
        decreases names@.len() - i,
    {
        match &names[i] {
            Some(name) => out.push(Some(lowercase(name.as_str()))),
            None => out.push(None),
        }
        i = i + 1;
    }
    assert(name_views(out@) =~= folded_views(names@));
    out
}

} // verus!
