use vstd::prelude::*;

verus! {

/// The text in lower case.
pub uninterp spec fn lowercase_of(s: Seq<char>) -> Seq<char>;

/// Relies on str::to_lowercase: the result depends on the text alone, and an
/// empty text stays empty.
#[verifier::external_body]
fn to_lowercase(s: &str) -> (r: String)
    ensures
        r@ == lowercase_of(s@),
        s@.len() == 0 ==> r@.len() == 0,
{
    s.to_lowercase()
}

fn same_text(a: &str, b: &str) -> (r: bool)
    ensures
        r == (a@ == b@),
{
    let n = a.unicode_len();
    if n != b.unicode_len() {
        return false;
    }
    let mut i: usize = 0;
    while i < n
        invariant
            n == a@.len() == b@.len(),
            i <= n,
            forall|j: int| 0 <= j < i ==> a@[j] == b@[j],
        decreases n - i,
    {
        if a.get_char(i) != b.get_char(i) {
            return false;
        }
        i = i + 1;
    }
    assert(a@ =~= b@);
    true
}

/// The environment the application runs in, which picks its configuration
/// file.
#[derive(Debug, Clone, Copy, PartialEq, Eq, Structural)]
pub enum Environment {
    Local,
    Production,
}

pub open spec fn environment_named(name: Seq<char>) -> Option<Environment> {
    if name == "local"@ {
        Some(Environment::Local)
    } else if name == "production"@ {
        Some(Environment::Production)
    } else {
        None
    }
}

pub open spec fn unsupported_suffix() -> Seq<char> {
    " is not a supported environment. Use either `local` or `production`."@
}

impl Environment {
    pub fn as_str(&self) -> (r: &'static str)
        ensures
            *self == Environment::Local ==> r@ == "local"@,
            *self == Environment::Production ==> r@ == "production"@,
    {
        match self {
            Environment::Local => "local",
            Environment::Production => "production",
        }
    }

    /// The environment named by an already lower-cased name.
    pub fn from_lowercase_name(name: &str) -> (r: Option<Environment>)
        ensures
            r == environment_named(name@),
    {
        proof {
            reveal_strlit("local");
            reveal_strlit("production");
        }
        if same_text(name, "local") {
            Some(Environment::Local)
        } else if same_text(name, "production") {
            Some(Environment::Production)
        } else {
            None
        }
    }

    /// The environment named by `name`, in any letter case; an unknown name
    /// is refused with a message that names it.
    pub fn from_name(name: &str) -> (r: Result<Environment, String>)
        ensures
            r is Ok <==> environment_named(lowercase_of(name@)) is Some,
            r matches Ok(e) ==> environment_named(lowercase_of(name@)) == Some(e),
            r matches Err(m) ==> m@ == lowercase_of(name@) + unsupported_suffix(),
    {
        let lower = to_lowercase(name);
        match Environment::from_lowercase_name(lower.as_str()) {
            Some(e) => Ok(e),
            None => {
                let mut m = lower.clone();
                m.append(" is not a supported environment. Use either `local` or `production`.");
                proof {
                    reveal_strlit(" is not a supported environment. Use either `local` or `production`.");
                }
                Err(m)
            },
        }
    }
}

} // verus!
