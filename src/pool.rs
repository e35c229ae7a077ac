//! The constant pool of one bytecode unit, and resolution of the namespace and
//! multiname references that class records make into it.
use vstd::prelude::*;
use vstd::slice::slice_to_vec;

verus! {

/// A namespace entry of the constant pool. Every kind wraps one 1-based index
/// into the string table.
#[derive(Clone, Copy, Debug, PartialEq, Eq, Structural)]
pub enum Namespace {
    Namespace(u32),
    Package(u32),
    PackageInternal(u32),
    Protected(u32),
    Explicit(u32),
    StaticProtected(u32),
    Private(u32),
}

impl Namespace {
    /// The string-table index that this namespace wraps, whatever its kind.
    pub open spec fn string_index(self) -> u32 {
        match self {
            Namespace::Namespace(i) => i,
            Namespace::Package(i) => i,
            Namespace::PackageInternal(i) => i,
            Namespace::Protected(i) => i,
            Namespace::Explicit(i) => i,
            Namespace::StaticProtected(i) => i,
            Namespace::Private(i) => i,
        }
    }
}

/// The kind of a multiname that names a class in some other way than by a
/// namespace and a name.
#[derive(Clone, Copy, Debug, PartialEq, Eq, Structural)]
pub enum NameKind {
    QNameA,
    RTQName,
    RTQNameA,
    RTQNameL,
    RTQNameLA,
    Multiname,
    MultinameA,
    MultinameL,
    MultinameLA,
    TypeName,
}

/// A multiname entry of the constant pool. Only a fully qualified name is
/// resolvable; every other kind is kept by its tag alone.
#[derive(Clone, Copy, Debug, PartialEq, Eq, Structural)]
pub enum Multiname {
    QName { namespace: u32, name: u32 },
    Other(NameKind),
}

/// A class declared by a bytecode unit: 1-based multiname indices of its own
/// name and of its superclass's name.
#[derive(Clone, Copy, Debug, PartialEq, Eq, Structural)]
pub struct ClassInstance {
    pub name: u32,
    pub super_name: u32,
}

/// Why a reference into the constant pool could not be resolved.
#[derive(Clone, Copy, Debug, PartialEq, Eq, Structural)]
pub enum ResolveError {
    /// A string index that is 0 or past the end of the string table.
    StringIndex(u32),
    /// A namespace index that is 0 or past the end of the namespace table.
    NamespaceIndex(u32),
    /// A multiname index that is 0 or past the end of the multiname table.
    MultinameIndex(u32),
    /// A multiname of a kind that is not resolved to a namespace and a name.
    UnsupportedNameKind(NameKind),
}

/// The three 1-indexed tables of a bytecode unit that class names go through.
pub struct ConstantPool {
    pub strings: Vec<Vec<u8>>,
    pub namespaces: Vec<Namespace>,
    pub multinames: Vec<Multiname>,
}

/// A constant pool in mathematical terms.
pub struct PoolModel {
    pub strings: Seq<Seq<u8>>,
    pub namespaces: Seq<Namespace>,
    pub multinames: Seq<Multiname>,
}

/// What an entry of a 1-indexed table is: present when `1 <= i <= len`.
pub open spec fn entry<T>(table: Seq<T>, i: u32) -> Option<T> {
    if 1 <= i && i <= table.len() {
        Some(table[i - 1])
    } else {
        None
    }
}

impl PoolModel {
    /// The string at 1-based index `i`, as bytes.
    pub open spec fn string_at(&self, i: u32) -> Option<Seq<u8>> {
        if 1 <= i && i <= self.strings.len() {
            Some(self.strings[i - 1])
        } else {
            None
        }
    }

    /// The string that a namespace resolves to.
    pub open spec fn namespace_name(&self, ns: Namespace) -> Result<Seq<u8>, ResolveError> {
        match self.string_at(ns.string_index()) {
            Some(s) => Ok(s),
            None => Err(ResolveError::StringIndex(ns.string_index())),
        }
    }

    /// The `(namespace, name)` pair that a multiname resolves to.
    pub open spec fn multiname_name(&self, m: Multiname) -> Result<(Seq<u8>, Seq<u8>), ResolveError> {
        match m {
            Multiname::Other(kind) => Err(ResolveError::UnsupportedNameKind(kind)),
            Multiname::QName { namespace, name } => match entry(self.namespaces, namespace) {
                None => Err(ResolveError::NamespaceIndex(namespace)),
                Some(ns) => match self.namespace_name(ns) {
                    Err(e) => Err(e),
                    Ok(n) => match self.string_at(name) {
                        None => Err(ResolveError::StringIndex(name)),
                        Some(s) => Ok((n, s)),
                    },
                },
            },
        }
    }

    /// The `(namespace, name)` pair that the multiname at 1-based index `i`
    /// resolves to.
    pub open spec fn name_at(&self, i: u32) -> Result<(Seq<u8>, Seq<u8>), ResolveError> {
        match entry(self.multinames, i) {
            None => Err(ResolveError::MultinameIndex(i)),
            Some(m) => self.multiname_name(m),
        }
    }

}

impl View for ConstantPool {
    type V = PoolModel;

    open spec fn view(&self) -> PoolModel {
        PoolModel {
            strings: self.strings@.map_values(|b: Vec<u8>| b@),
            namespaces: self.namespaces@,
            multinames: self.multinames@,
        }
    }
}

impl ConstantPool {
    /// Looks up a string by its 1-based index.
    pub fn get_string(&self, i: u32) -> (r: Result<&Vec<u8>, ResolveError>)
        ensures
            match self@.string_at(i) {
                Some(s) => r is Ok && r->Ok_0@ == s,
                None => r == Err::<&Vec<u8>, ResolveError>(ResolveError::StringIndex(i)),
            },
    {
        if i >= 1 && ((i - 1) as usize) < self.strings.len() {
            Ok(&self.strings[(i - 1) as usize])
        } else {
            Err(ResolveError::StringIndex(i))
        }
    }

    /// Looks up a multiname by its 1-based index.
    pub fn get_multiname(&self, i: u32) -> (r: Result<Multiname, ResolveError>)
        ensures
            match entry(self.multinames@, i) {
                Some(m) => r == Ok::<Multiname, ResolveError>(m),
                None => r == Err::<Multiname, ResolveError>(ResolveError::MultinameIndex(i)),
            },
    {
        if i >= 1 && ((i - 1) as usize) < self.multinames.len() {
            Ok(self.multinames[(i - 1) as usize])
        } else {
            Err(ResolveError::MultinameIndex(i))
        }
    }
}

/// Resolves a namespace to its string. The kind of the namespace plays no part.
pub fn get_namespace_name<'a>(namespace: &Namespace, pool: &'a ConstantPool) -> (r: Result<&'a Vec<u8>, ResolveError>)
    ensures
        match pool@.namespace_name(*namespace) {
            Ok(s) => r is Ok && r->Ok_0@ == s,
            Err(e) => r == Err::<&Vec<u8>, ResolveError>(e),
        },
{
    let i = match namespace {
        Namespace::Namespace(i) => *i,
        Namespace::Package(i) => *i,
        Namespace::PackageInternal(i) => *i,
        Namespace::Protected(i) => *i,
        Namespace::Explicit(i) => *i,
        Namespace::StaticProtected(i) => *i,
        Namespace::Private(i) => *i,
    };
    pool.get_string(i)
}

/// Resolves a multiname to its namespace string and its name string. Only a
/// fully qualified name resolves; any other kind is refused with its tag.
pub fn get_name<'a>(name: &Multiname, pool: &'a ConstantPool) -> (r: Result<(&'a Vec<u8>, &'a Vec<u8>), ResolveError>)
    ensures
        match pool@.multiname_name(*name) {
            Ok(p) => r is Ok && r->Ok_0.0@ == p.0 && r->Ok_0.1@ == p.1,
            Err(e) => r == Err::<(&Vec<u8>, &Vec<u8>), ResolveError>(e),
        },
{
    match name {
        Multiname::Other(kind) => Err(ResolveError::UnsupportedNameKind(*kind)),
        Multiname::QName { namespace, name } => {
            let i = *namespace;
            if i == 0 || (i - 1) as usize >= pool.namespaces.len() {
                return Err(ResolveError::NamespaceIndex(i));
            }
            let ns = match get_namespace_name(&pool.namespaces[(i - 1) as usize], pool) {
                Ok(s) => s,
                Err(e) => return Err(e),
            };
            match pool.get_string(*name) {
                Ok(s) => Ok((ns, s)),
                Err(e) => Err(e),
            }
        },
    }
}

/// Resolution of a namespace depends on the string index it wraps and not on
/// its kind: the seven kinds around one index resolve to the same string.
pub proof fn lemma_namespace_kind_independent(pool: PoolModel, i: u32)
    ensures
        pool.namespace_name(Namespace::Package(i)) == pool.namespace_name(Namespace::Namespace(i)),
        pool.namespace_name(Namespace::PackageInternal(i)) == pool.namespace_name(Namespace::Namespace(i)),
        pool.namespace_name(Namespace::Protected(i)) == pool.namespace_name(Namespace::Namespace(i)),
        pool.namespace_name(Namespace::Explicit(i)) == pool.namespace_name(Namespace::Namespace(i)),
        pool.namespace_name(Namespace::StaticProtected(i)) == pool.namespace_name(Namespace::Namespace(i)),
        pool.namespace_name(Namespace::Private(i)) == pool.namespace_name(Namespace::Namespace(i)),
{
}

/// A multiname of any kind but the fully qualified name is refused with
/// `UnsupportedNameKind`, carrying its kind.
pub proof fn lemma_other_kinds_unsupported(pool: PoolModel, kind: NameKind)
    ensures
        pool.multiname_name(Multiname::Other(kind)) == Err::<(Seq<u8>, Seq<u8>), ResolveError>(
            ResolveError::UnsupportedNameKind(kind),
        ),
{
}

/// Copies a byte string.
pub fn copy_bytes(b: &Vec<u8>) -> (r: Vec<u8>)
    ensures
        r@ == b@,
{
    slice_to_vec(b.as_slice())
}

} // verus!
