//! Namespaces, qualified names and their canonical string form.
use crate::error::Error;
use vstd::prelude::*;

verus! {

/// A namespace qualifying a name.
#[derive(Debug)]
pub enum Namespace {
    Public,
    /// Private to the owner with the given identifier.
    Private(String),
    Protected,
    /// An explicit namespace URI (a package name, for instance).
    Explicit(String),
    Any,
}

/// The mathematical value of a [`Namespace`].
pub enum NamespaceView {
    Public,
    Private(Seq<char>),
    Protected,
    Explicit(Seq<char>),
    Any,
}

impl View for Namespace {
    type V = NamespaceView;

    open spec fn view(&self) -> NamespaceView {
        match self {
            Namespace::Public => NamespaceView::Public,
            Namespace::Private(s) => NamespaceView::Private(s@),
            Namespace::Protected => NamespaceView::Protected,
            Namespace::Explicit(s) => NamespaceView::Explicit(s@),
            Namespace::Any => NamespaceView::Any,
        }
    }
}

/// A name together with its namespace.
#[derive(Debug)]
pub struct QName {
    pub ns: Namespace,
    pub local: String,
}

/// The mathematical value of a [`QName`].
pub struct QNameView {
    pub ns: NamespaceView,
    pub local: Seq<char>,
}

impl View for QName {
    type V = QNameView;

    open spec fn view(&self) -> QNameView {
        QNameView { ns: self.ns@, local: self.local@ }
    }
}

/// The separator between the namespace and the local name: `::`.
pub open spec fn separator() -> Seq<char> {
    seq![':', ':']
}

/// `s` holds the separator at position `i`.
pub open spec fn sep_at(s: Seq<char>, i: int) -> bool {
    0 <= i && i + 1 < s.len() && s[i] == ':' && s[i + 1] == ':'
}

/// `s` holds the separator somewhere.
pub open spec fn has_sep(s: Seq<char>) -> bool {
    exists|i: int| sep_at(s, i)
}

/// The last position below `n` where `s` holds the separator, or -1.
pub open spec fn last_sep_below(s: Seq<char>, n: int) -> int
    decreases n,
{
    if n <= 0 {
        -1
    } else if sep_at(s, n - 1) {
        n - 1
    } else {
        last_sep_below(s, n - 1)
    }
}

/// The namespace's qualifier in the canonical string form, empty when it has none.
pub open spec fn qualifier(ns: NamespaceView) -> Seq<char> {
    match ns {
        NamespaceView::Private(s) => s,
        NamespaceView::Explicit(s) => s,
        _ => Seq::empty(),
    }
}

/// Canonical string form: `"qualifier::local"`, or `"local"` without a qualifier.
pub open spec fn render(q: QNameView) -> Seq<char> {
    let u = qualifier(q.ns);
    if u.len() == 0 {
        q.local
    } else {
        u + separator() + q.local
    }
}

/// Reading of a canonical string: split at the last separator; an empty
/// qualifier means the public namespace; an empty local name is invalid.
pub open spec fn parse(s: Seq<char>) -> Option<QNameView> {
    let k = last_sep_below(s, s.len() as int);
    if k < 0 {
        if s.len() == 0 {
            None
        } else {
            Some(QNameView { ns: NamespaceView::Public, local: s })
        }
    } else {
        let uri = s.subrange(0, k);
        let local = s.subrange(k + 2, s.len() as int);
        if local.len() == 0 {
            None
        } else if uri.len() == 0 {
            Some(QNameView { ns: NamespaceView::Public, local })
        } else {
            Some(QNameView { ns: NamespaceView::Explicit(uri), local })
        }
    }
}

/// A well-formed qualified name: a non-empty local name without the
/// separator; a private or explicit namespace has a non-empty qualifier, and
/// the local name after it does not begin with `:`.
pub open spec fn wf_qname(q: QNameView) -> bool {
    &&& q.local.len() > 0
    &&& !has_sep(q.local)
    &&& (q.ns is Private || q.ns is Explicit) ==> qualifier(q.ns).len() > 0 && q.local[0] != ':'
}

proof fn lemma_no_sep_between(s: Seq<char>, m: int, n: int)
    requires
        0 <= m <= n,
        forall|i: int| m <= i < n ==> !sep_at(s, i),
    ensures
        last_sep_below(s, n) == last_sep_below(s, m),
    decreases n - m,
{
    if n > m {
        lemma_no_sep_between(s, m, n - 1);
    }
}

proof fn lemma_last_sep_bounds(s: Seq<char>, n: int)
    requires
        n >= 0,
    ensures
        last_sep_below(s, n) < n,
        last_sep_below(s, n) >= 0 ==> sep_at(s, last_sep_below(s, n)),
        last_sep_below(s, n) >= -1,
    decreases n,
{
    if n > 0 && !sep_at(s, n - 1) {
        lemma_last_sep_bounds(s, n - 1);
    }
}

/// Rendering a well-formed name in the public namespace or in an explicit
/// namespace, then parsing the string, gives the name back.
pub proof fn lemma_parse_render(q: QNameView)
    requires
        wf_qname(q),
        q.ns is Public || q.ns is Explicit,
    ensures
        parse(render(q)) == Some(q),
{
    let s = render(q);
    let u = qualifier(q.ns);
    if u.len() == 0 {
        assert forall|i: int| 0 <= i < s.len() implies !sep_at(s, i) by {
            if sep_at(s, i) {
                assert(sep_at(q.local, i));
            }
        }
        lemma_no_sep_between(s, 0, s.len() as int);
        assert(s.subrange(0, s.len() as int) =~= s);
    } else {
        let k = u.len() as int;
        assert(sep_at(s, k));
        assert forall|i: int| k + 1 <= i < s.len() implies !sep_at(s, i) by {
            if i == k + 1 {
                assert(s[k + 2] == q.local[0]);
            } else if sep_at(s, i) {
                assert(sep_at(q.local, i - k - 2));
            }
        }
        lemma_no_sep_between(s, k + 1, s.len() as int);
        assert(last_sep_below(s, k + 1) == k);
        assert(s.subrange(0, k) =~= u);
        assert(s.subrange(k + 2, s.len() as int) =~= q.local);
    }
}

impl Namespace {
    /// A copy of this namespace.
    pub fn copy(&self) -> (r: Namespace)
        ensures
            r@ == self@,
    {
        match self {
            Namespace::Public => Namespace::Public,
            Namespace::Private(s) => Namespace::Private(s.clone()),
            Namespace::Protected => Namespace::Protected,
            Namespace::Explicit(s) => Namespace::Explicit(s.clone()),
            Namespace::Any => Namespace::Any,
        }
    }

    /// Whether two namespaces are the same.
    pub fn same_as(&self, other: &Namespace) -> (r: bool)
        ensures
            r == (self@ == other@),
    {
        match (self, other) {
            (Namespace::Public, Namespace::Public) => true,
            (Namespace::Private(a), Namespace::Private(b)) => a.eq(b),
            (Namespace::Protected, Namespace::Protected) => true,
            (Namespace::Explicit(a), Namespace::Explicit(b)) => a.eq(b),
            (Namespace::Any, Namespace::Any) => true,
            _ => false,
        }
    }

    /// The qualifier written before the separator, empty when there is none.
    pub fn qualifier(&self) -> (r: &str)
        ensures
            r@ == qualifier(self@),
    {
        match self {
            Namespace::Private(s) => s.as_str(),
            Namespace::Explicit(s) => s.as_str(),
            _ => {
                proof {
                    reveal_strlit("");
                }
                ""
            },
        }
    }
}

impl QName {
    /// A qualified name, refused with `InvalidName` unless well-formed.
    pub fn new(ns: Namespace, local: String) -> (r: Result<QName, Error>)
        ensures
            match r {
                Ok(q) => q.ns@ == ns@ && q.local@ == local@,
                Err(e) => e == Error::InvalidName,
            },
            r is Ok <==> wf_qname(QNameView { ns: ns@, local: local@ }),
    {
        let n = local.as_str().unicode_len();
        if n == 0 {
            return Err(Error::InvalidName);
        }
        let qualified = ns.qualifier().unicode_len() > 0;
        if (matches!(ns, Namespace::Private(_)) || matches!(ns, Namespace::Explicit(_)))
            && (!qualified || local.as_str().get_char(0) == ':') {
            return Err(Error::InvalidName);
        }
        match find_last_sep(local.as_str()) {
            Some(_) => {
                proof {
                    lemma_last_sep_bounds(local@, n as int);
                }
                Err(Error::InvalidName)
            },
            None => {
                proof {
                    lemma_no_sep_below(local@);
                }
                Ok(QName { ns, local })
            },
        }
    }

    /// A copy of this name.
    pub fn copy(&self) -> (r: QName)
        ensures
            r@ == self@,
    {
        QName { ns: self.ns.copy(), local: self.local.clone() }
    }

    /// Whether two names are the same.
    pub fn same_as(&self, other: &QName) -> (r: bool)
        ensures
            r == (self@ == other@),
    {
        self.ns.same_as(&other.ns) && self.local.eq(&other.local)
    }

    /// The canonical string form of this name.
    pub fn to_qualified_name(&self) -> (r: String)
        ensures
            r@ == render(self@),
    {
        let u = self.ns.qualifier();
        if u.unicode_len() == 0 {
            self.local.clone()
        } else {
            let sep = "::";
            proof {
                reveal_strlit("::");
                assert(sep@ =~= separator());
            }
            String::from_str(u).concat(sep).concat(self.local.as_str())
        }
    }

    /// Reads a canonical string form; `InvalidName` when the local name is empty.
    pub fn from_qualified_name(name: &str) -> (r: Result<QName, Error>)
        ensures
            match r {
                Ok(q) => parse(name@) == Some(q@),
                Err(e) => parse(name@) is None && e == Error::InvalidName,
            },
    {
        let n = name.unicode_len();
        match find_last_sep(name) {
            None => {
                if n == 0 {
                    Err(Error::InvalidName)
                } else {
                    proof {
                        assert(name@.subrange(0, n as int) =~= name@);
                    }
                    Ok(QName { ns: Namespace::Public, local: String::from_str(name) })
                }
            },
            Some(k) => {
                proof {
                    lemma_last_sep_bounds(name@, n as int);
                }
                let uri = name.substring_char(0, k);
                let local = name.substring_char(k + 2, n);
                if local.unicode_len() == 0 {
                    Err(Error::InvalidName)
                } else if uri.unicode_len() == 0 {
                    Ok(QName { ns: Namespace::Public, local: String::from_str(local) })
                } else {
                    Ok(QName { ns: Namespace::Explicit(String::from_str(uri)), local: String::from_str(local) })
                }
            },
        }
    }
}

proof fn lemma_no_sep_below(s: Seq<char>)
    requires
        last_sep_below(s, s.len() as int) < 0,
    ensures
        !has_sep(s),
{
    assert forall|i: int| !sep_at(s, i) by {
        if sep_at(s, i) {
            lemma_sep_found(s, i, s.len() as int);
        }
    }
}

proof fn lemma_sep_found(s: Seq<char>, i: int, n: int)
    requires
        sep_at(s, i),
        i < n,
    ensures
        last_sep_below(s, n) >= i,
    decreases n,
{
    if n - 1 != i && !sep_at(s, n - 1) {
        lemma_sep_found(s, i, n - 1);
    }
}

/// The last position of the separator in `s`, if any.
fn find_last_sep(s: &str) -> (r: Option<usize>)
    ensures
        match r {
            Some(k) => k as int == last_sep_below(s@, s@.len() as int),
            None => last_sep_below(s@, s@.len() as int) < 0,
        },
{
    let n = s.unicode_len();
    let mut j: usize = n;
    while j > 0
        invariant
            n == s@.len(),
            j <= n,
            last_sep_below(s@, n as int) == last_sep_below(s@, j as int),
        decreases j,
    {
        if j < n && s.get_char(j - 1) == ':' && s.get_char(j) == ':' {
            return Some(j - 1);
        }
        j = j - 1;
    }
    None
}

} // verus!
