//! The tags of a document that class lookup reads, and the calls into the
//! `swf` crate that decode a document and its bytecode units.
use vstd::prelude::*;
use crate::pool::{ClassInstance, ConstantPool, Multiname, Namespace, PoolModel};
use crate::pool::Multiname::{Other, QName};
use crate::pool::NameKind as K;
use crate::pool::NameKind::{
    MultinameA, MultinameL, MultinameLA, QNameA, RTQName, RTQNameA, RTQNameL, RTQNameLA, TypeName,
};
use swf::avm2::types::Multiname as M;
use swf::avm2::types::Namespace as N;
use swf::avm2::read::Reader;
use swf::{decompress_swf, parse_swf, Tag as T};

verus! {

/// One link of a symbol-class table: a symbol id and the fully qualified name
/// of the class bound to it, as bytes.
#[derive(Debug)]
pub struct SymbolLink {
    pub id: u16,
    pub class_name: Vec<u8>,
}

/// The tags of a document that class lookup distinguishes.
#[derive(Debug)]
pub enum Tag {
    /// A symbol-class table, in document order.
    SymbolClass(Vec<SymbolLink>),
    /// A bytecode unit of the current format, as raw bytes.
    Code(Vec<u8>),
    /// A bytecode unit of the legacy format, which is not read.
    LegacyCode,
    /// Any other tag.
    Other,
}

/// A document that could not be decoded.
#[derive(Clone, Copy, Debug, PartialEq, Eq, Structural)]
pub enum FormatError {
    /// The container could not be decompressed or split into tags.
    Container,
    /// A bytecode unit could not be read.
    Bytecode,
}

/// The class records of one bytecode unit, with the pool they refer into.
pub struct CodeUnit {
    pub pool: ConstantPool,
    pub instances: Vec<ClassInstance>,
}

/// A tag in mathematical terms; a link is its symbol id and class name.
pub enum TagModel {
    SymbolClass(Seq<(u16, Seq<u8>)>),
    Code(Seq<u8>),
    LegacyCode,
    Other,
}

/// A bytecode unit in mathematical terms.
pub struct UnitModel {
    pub pool: PoolModel,
    pub instances: Seq<ClassInstance>,
}

impl View for SymbolLink {
    type V = (u16, Seq<u8>);

    open spec fn view(&self) -> (u16, Seq<u8>) {
        (self.id, self.class_name@)
    }
}

/// The models of a sequence of links.
pub open spec fn link_models(links: Seq<SymbolLink>) -> Seq<(u16, Seq<u8>)> {
    links.map_values(|l: SymbolLink| l@)
}

impl View for Tag {
    type V = TagModel;

    open spec fn view(&self) -> TagModel {
        match self {
            Tag::SymbolClass(v) => TagModel::SymbolClass(link_models(v@)),
            Tag::Code(b) => TagModel::Code(b@),
            Tag::LegacyCode => TagModel::LegacyCode,
            Tag::Other => TagModel::Other,
        }
    }
}

/// The models of a sequence of tags.
pub open spec fn tag_models(tags: Seq<Tag>) -> Seq<TagModel> {
    tags.map_values(|t: Tag| t@)
}

impl View for CodeUnit {
    type V = UnitModel;

    open spec fn view(&self) -> UnitModel {
        UnitModel { pool: self.pool@, instances: self.instances@ }
    }
}

/// The models of a sequence of bytecode units.
pub open spec fn unit_models(units: Seq<CodeUnit>) -> Seq<UnitModel> {
    units.map_values(|u: CodeUnit| u@)
}

/// The tags of the document whose bytes are `data`, as decompressed and
/// parsed by the `swf` crate; none when it refuses them.
pub uninterp spec fn document_tags(data: Seq<u8>) -> Option<Seq<TagModel>>;

/// The bytecode unit whose bytes are `data`, as read by the `swf` crate; none
/// when it refuses them.
pub uninterp spec fn code_unit_of(data: Seq<u8>) -> Option<UnitModel>;

/// The units of all `blobs`, in order; none when one of them is refused.
pub open spec fn units_of(blobs: Seq<Seq<u8>>) -> Option<Seq<UnitModel>> {
    if exists|j: int| 0 <= j < blobs.len() && (#[trigger] code_unit_of(blobs[j])) is None {
        None
    } else {
        Some(blobs.map_values(|b: Seq<u8>| code_unit_of(b)->Some_0))
    }
}

/// Whether `r` is the table that `field` picks from the decoded unit `u`, and
/// is none when there is no unit.
pub open spec fn decoded_table<T>(r: Option<Vec<T>>, u: Option<UnitModel>, field: spec_fn(UnitModel) -> Seq<T>) -> bool {
    match u {
        Some(u) => r is Some && r->Some_0@ == field(u),
        None => r is None,
    }
}

#[verifier::external_type_specification]
#[verifier::external_body]
pub struct ExSwfError(swf::error::Error);

#[verifier::external_type_specification]
#[verifier::external_body]
pub struct ExAbcParseError(swf::error::AbcParseError);

/// The link table of the last symbol-class tag among `tags`, if there is one.
pub open spec fn last_links(tags: Seq<TagModel>) -> Option<Seq<(u16, Seq<u8>)>>
    decreases tags.len(),
{
    if tags.len() == 0 {
        None
    } else {
        match tags.last() {
            TagModel::SymbolClass(links) => Some(links),
            _ => last_links(tags.drop_last()),
        }
    }
}

/// Whether some tag among `tags` is a legacy bytecode unit.
pub open spec fn has_legacy(tags: Seq<TagModel>) -> bool {
    exists|i: int| 0 <= i < tags.len() && tags[i] is LegacyCode
}

/// The bytecode units among `tags`, in document order.
pub open spec fn code_blobs(tags: Seq<TagModel>) -> Seq<Seq<u8>>
    decreases tags.len(),
{
    if tags.len() == 0 {
        seq![]
    } else {
        match tags.last() {
            TagModel::Code(b) => code_blobs(tags.drop_last()).push(b),
            _ => code_blobs(tags.drop_last()),
        }
    }
}

/// The bytecode units of the first `i` tags come first among those of all.
proof fn lemma_code_blobs_prefix(tags: Seq<TagModel>, i: int)
    requires
        0 <= i <= tags.len(),
    ensures
        code_blobs(tags.subrange(0, i)).len() <= code_blobs(tags).len(),
        code_blobs(tags.subrange(0, i)) == code_blobs(tags).subrange(0, code_blobs(tags.subrange(0, i)).len() as int),
    decreases tags.len() - i,
{
    if i == tags.len() {
        assert(tags.subrange(0, i) == tags);
        assert(code_blobs(tags).subrange(0, code_blobs(tags).len() as int) == code_blobs(tags));
    } else {
        lemma_code_blobs_prefix(tags, i + 1);
        assert(tags.subrange(0, i + 1).drop_last() == tags.subrange(0, i));
        let p = code_blobs(tags.subrange(0, i));
        let q = code_blobs(tags.subrange(0, i + 1));
        assert(p == q.subrange(0, p.len() as int));
        assert(p == code_blobs(tags).subrange(0, p.len() as int));
    }
}

/// Of several symbol-class tags, the last one supplies the link table: the
/// tables of earlier ones are not merged in.
pub proof fn lemma_last_table_wins(tags: Seq<TagModel>, i: int)
    requires
        0 <= i < tags.len(),
        tags[i] is SymbolClass,
        forall|j: int| i < j < tags.len() ==> !(#[trigger] tags[j] is SymbolClass),
    ensures
        last_links(tags) == Some(tags[i]->SymbolClass_0),
    decreases tags.len(),
{
    if i < tags.len() - 1 {
        assert(!(tags[tags.len() - 1] is SymbolClass));
        let t = tags.drop_last();
        assert forall|j: int| i < j < t.len() implies !(#[trigger] t[j] is SymbolClass) by {
            assert(t[j] == tags[j]);
        }
        lemma_last_table_wins(t, i);
    }
}

/// Removing a tag that is not a bytecode unit leaves the bytecode units as
/// they were.
proof fn lemma_remove_keeps_blobs(tags: Seq<TagModel>, i: int)
    requires
        0 <= i < tags.len(),
        !(tags[i] is Code),
    ensures
        code_blobs(tags.remove(i)) == code_blobs(tags),
    decreases tags.len(),
{
    if i == tags.len() - 1 {
        assert(tags.remove(i) == tags.drop_last());
    } else {
        let r = tags.remove(i);
        assert(r.drop_last() == tags.drop_last().remove(i));
        assert(r.last() == tags.last());
        lemma_remove_keeps_blobs(tags.drop_last(), i);
    }
}

/// A symbol-class tag followed by a later one can be removed without changing
/// the link table, the bytecode units or the presence of legacy code: a scan of
/// the document reads nothing of it, so tables are never merged.
pub proof fn lemma_earlier_table_ignored(tags: Seq<TagModel>, i: int, j: int)
    requires
        0 <= i < j < tags.len(),
        tags[i] is SymbolClass,
        tags[j] is SymbolClass,
    ensures
        last_links(tags.remove(i)) == last_links(tags),
        code_blobs(tags.remove(i)) == code_blobs(tags),
        has_legacy(tags.remove(i)) == has_legacy(tags),
    decreases tags.len(),
{
    let r = tags.remove(i);
    lemma_remove_keeps_blobs(tags, i);
    assert(r.drop_last() == tags.drop_last().remove(i));
    assert(r.last() == tags.last());
    if !(tags.last() is SymbolClass) {
        lemma_earlier_table_ignored(tags.drop_last(), i, j);
    }
    if has_legacy(tags) {
        let k = choose|k: int| 0 <= k < tags.len() && tags[k] is LegacyCode;
        assert(k != i);
        if k < i {
            assert(r[k] is LegacyCode);
        } else {
            assert(r[k - 1] is LegacyCode);
        }
    }
    if has_legacy(r) {
        let k = choose|k: int| 0 <= k < r.len() && r[k] is LegacyCode;
        if k < i {
            assert(tags[k] is LegacyCode);
        } else {
            assert(tags[k + 1] is LegacyCode);
        }
    }
}

/// The link table that joins classes to symbols: that of the last symbol-class
/// tag. Earlier tables are not merged in.
pub fn last_link_table(tags: &Vec<Tag>) -> (r: Option<&Vec<SymbolLink>>)
    ensures
        match last_links(tag_models(tags@)) {
            Some(l) => r is Some && link_models(r->Some_0@) == l,
            None => r is None,
        },
{
    let ghost tm = tag_models(tags@);
    let mut links: Option<&Vec<SymbolLink>> = None;
    let mut i: usize = 0;
    while i < tags.len()
        invariant
            i <= tags.len(),
            tm == tag_models(tags@),
            match last_links(tm.subrange(0, i as int)) {
                Some(l) => links is Some && link_models(links->Some_0@) == l,
                None => links is None,
            },
        decreases tags.len() - i,
    {
        assert(tm.subrange(0, i + 1).drop_last() == tm.subrange(0, i as int));
        assert(tm[i as int] == tags@[i as int]@);
        if let Tag::SymbolClass(v) = &tags[i] {
            links = Some(v);
        }
        i = i + 1;
    }
    assert(tm.subrange(0, i as int) == tm);
    links
}

/// Whether the document holds a legacy bytecode unit, which is reported and
/// skipped.
pub fn has_legacy_code(tags: &Vec<Tag>) -> (r: bool)
    ensures
        r == has_legacy(tag_models(tags@)),
{
    let mut i: usize = 0;
    while i < tags.len()
        invariant
            i <= tags.len(),
            forall|j: int| 0 <= j < i ==> !(tags@[j] is LegacyCode),
        decreases tags.len() - i,
    {
        if let Tag::LegacyCode = &tags[i] {
            assert(tag_models(tags@)[i as int] is LegacyCode);
            return true;
        }
        i = i + 1;
    }
    assert forall|j: int| 0 <= j < tags@.len() implies !(#[trigger] tag_models(tags@)[j] is LegacyCode) by {
        assert(!(tags@[j] is LegacyCode));
    }
    false
}

/// Relies on swf::decompress_swf and swf::parse_swf: decompresses a document
/// and splits it into its tags. Each tag is carried over with the fields that
/// class lookup reads.
#[verifier::external_body]
fn decode_tags(data: &[u8]) -> (r: Result<Vec<Tag>, swf::error::Error>)
    ensures
        match document_tags(data@) {
            Some(t) => r is Ok && tag_models(r->Ok_0@) == t,
            None => r is Err,
        },
{
    let buf = decompress_swf(data)?;
    parse_swf(&buf).map(|s| s.tags.iter().map(|t| match t {
        T::SymbolClass(v) => Tag::SymbolClass(v.iter().map(|l| SymbolLink {
            id: l.id,
            class_name: l.class_name.as_bytes().to_vec(),
        }).collect()),
        T::DoAbc(_) => Tag::LegacyCode,
        T::DoAbc2(a) => Tag::Code(a.data.to_vec()),
        _ => Tag::Other,
    }).collect())
}

/// Decodes a document into its tags. Fails exactly when the container cannot
/// be decompressed or parsed; nothing partial is returned then.
pub fn read_tags(data: &[u8]) -> (r: Result<Vec<Tag>, FormatError>)
    ensures
        match document_tags(data@) {
            Some(t) => r is Ok && tag_models(r->Ok_0@) == t,
            None => r == Err::<Vec<Tag>, FormatError>(FormatError::Container),
        },
{
    match decode_tags(data) {
        Err(_) => Err(FormatError::Container),
        Ok(tags) => Ok(tags),
    }
}

/// Relies on swf::avm2::read::Reader::read: the string table of a bytecode
/// unit, each string as its bytes.
#[verifier::external_body]
fn abc_strings(data: &[u8]) -> (r: Option<Vec<Vec<u8>>>)
    ensures
        match code_unit_of(data@) {
            Some(u) => r is Some && r->Some_0@.map_values(|b: Vec<u8>| b@) == u.pool.strings,
            None => r is None,
        },
{
    Reader::new(data).read().ok().map(|a| a.constant_pool.strings)
}

/// Relies on swf::avm2::read::Reader::read: the namespace table of a bytecode
/// unit, each kind with its string index.
#[verifier::external_body]
fn abc_namespaces(data: &[u8]) -> (r: Option<Vec<Namespace>>)
    ensures
        decoded_table(r, code_unit_of(data@), |u: UnitModel| u.pool.namespaces),
{
    Reader::new(data).read().ok().map(|a| a.constant_pool.namespaces.iter().map(|n| match n {
        N::Namespace(i) => Namespace::Namespace(i.0),
        N::Package(i) => Namespace::Package(i.0),
        N::PackageInternal(i) => Namespace::PackageInternal(i.0),
        N::Protected(i) => Namespace::Protected(i.0),
        N::Explicit(i) => Namespace::Explicit(i.0),
        N::StaticProtected(i) => Namespace::StaticProtected(i.0),
        N::Private(i) => Namespace::Private(i.0),
    }).collect())
}

/// Relies on swf::avm2::read::Reader::read: the multiname table of a bytecode
/// unit, a qualified name with its two indices, any other kind by its tag.
#[verifier::external_body]
fn abc_multinames(data: &[u8]) -> (r: Option<Vec<Multiname>>)
    ensures
        decoded_table(r, code_unit_of(data@), |u: UnitModel| u.pool.multinames),
{
    Reader::new(data).read().ok().map(|a| a.constant_pool.multinames.iter().map(|m| match m {
        M::QName { namespace, name } => QName { namespace: namespace.0, name: name.0 },
        M::QNameA { .. } => Other(QNameA),
        M::RTQName { .. } => Other(RTQName),
        M::RTQNameA { .. } => Other(RTQNameA),
        M::RTQNameL => Other(RTQNameL),
        M::RTQNameLA => Other(RTQNameLA),
        M::Multiname { .. } => Other(K::Multiname),
        M::MultinameA { .. } => Other(MultinameA),
        M::MultinameL { .. } => Other(MultinameL),
        M::MultinameLA { .. } => Other(MultinameLA),
        M::TypeName { .. } => Other(TypeName),
    }).collect())
}

/// Relies on swf::avm2::read::Reader::read: the instance records of a bytecode
/// unit, the name and superclass name index of each class.
#[verifier::external_body]
fn abc_instances(data: &[u8]) -> (r: Option<Vec<ClassInstance>>)
    ensures
        decoded_table(r, code_unit_of(data@), |u: UnitModel| u.instances),
{
    Reader::new(data).read().ok()
        .map(|a| a.instances.iter().map(|i| ClassInstance { name: i.name.0, super_name: i.super_name.0 }).collect())
}

/// Reads the constant pool and the class records of one bytecode unit. Fails
/// exactly when the unit cannot be read.
pub fn read_code_unit(data: &[u8]) -> (r: Result<CodeUnit, FormatError>)
    ensures
        match code_unit_of(data@) {
            Some(u) => r is Ok && r->Ok_0@ == u,
            None => r == Err::<CodeUnit, FormatError>(FormatError::Bytecode),
        },
{
    let strings = match abc_strings(data) {
        Some(s) => s,
        None => return Err(FormatError::Bytecode),
    };
    let namespaces = match abc_namespaces(data) {
        Some(n) => n,
        None => return Err(FormatError::Bytecode),
    };
    let multinames = match abc_multinames(data) {
        Some(m) => m,
        None => return Err(FormatError::Bytecode),
    };
    let instances = match abc_instances(data) {
        Some(i) => i,
        None => return Err(FormatError::Bytecode),
    };
    let unit = CodeUnit { pool: ConstantPool { strings, namespaces, multinames }, instances };
    assert(unit@.pool == code_unit_of(data@)->Some_0.pool);
    Ok(unit)
}

/// Reads every bytecode unit among `tags`, in document order. Fails exactly
/// when one of them cannot be read.
pub fn read_code_units(tags: &Vec<Tag>) -> (r: Result<Vec<CodeUnit>, FormatError>)
    ensures
        match units_of(code_blobs(tag_models(tags@))) {
            Some(u) => r is Ok && unit_models(r->Ok_0@) == u,
            None => r == Err::<Vec<CodeUnit>, FormatError>(FormatError::Bytecode),
        },
{
    let ghost tm = tag_models(tags@);
    let ghost all = code_blobs(tm);
    let mut units: Vec<CodeUnit> = Vec::new();
    let mut i: usize = 0;
    assert(tm.subrange(0, 0) =~= Seq::<TagModel>::empty());
    while i < tags.len()
        invariant
            i <= tags.len(),
            tm == tag_models(tags@),
            all == code_blobs(tm),
            units@.len() == code_blobs(tm.subrange(0, i as int)).len(),
            forall|j: int| 0 <= j < units@.len() ==>
                code_unit_of(#[trigger] code_blobs(tm.subrange(0, i as int))[j]) == Some(units@[j]@),
        decreases tags.len() - i,
    {
        let ghost prev = code_blobs(tm.subrange(0, i as int));
        assert(tm.subrange(0, i + 1).drop_last() == tm.subrange(0, i as int));
        assert(tm[i as int] == tags@[i as int]@);
        if let Tag::Code(blob) = &tags[i] {
            let ghost next = code_blobs(tm.subrange(0, i + 1));
            assert(next == prev.push(blob@));
            match read_code_unit(blob.as_slice()) {
                Ok(u) => units.push(u),
                Err(e) => {
                    proof {
                        lemma_code_blobs_prefix(tm, i + 1);
                        assert(next[prev.len() as int] == blob@);
                        assert(all.subrange(0, next.len() as int)[prev.len() as int] == all[prev.len() as int]);
                        assert(all[prev.len() as int] == blob@);
                        assert(code_unit_of(all[prev.len() as int]) is None);
                    }
                    return Err(e);
                },
            }
        }
        i = i + 1;
    }
    assert(tm.subrange(0, i as int) == tm);
    assert(!(exists|j: int| 0 <= j < all.len() && (#[trigger] code_unit_of(all[j])) is None));
    assert(unit_models(units@) =~= all.map_values(|b: Seq<u8>| code_unit_of(b)->Some_0));
    Ok(units)
}

} // verus!
