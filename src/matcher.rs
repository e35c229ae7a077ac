//! Selection of the texture classes among the declared classes, and their join
//! with the symbol-class link table.
use vstd::prelude::*;
use crate::document::{
    code_blobs, document_tags, has_legacy, has_legacy_code, last_link_table, last_links, link_models, read_code_units,
    read_tags, tag_models, unit_models, units_of, CodeUnit, FormatError, SymbolLink, Tag, UnitModel,
};
use crate::pool::{copy_bytes, get_name, ClassInstance, ConstantPool, PoolModel, ResolveError};

verus! {

/// A resolved class name: its namespace string and its own name, as bytes.
#[derive(Debug)]
pub struct ClassName {
    pub namespace: Vec<u8>,
    pub name: Vec<u8>,
}

/// A texture class: its name, its superclass's name, and the symbol id that
/// the link table binds to it, if any.
#[derive(Debug)]
pub struct ExportedTexture {
    pub classname: ClassName,
    pub supername: ClassName,
    pub id: Option<u16>,
}

/// The naming convention that marks a class as a texture: the package that
/// holds texture classes, and the namespace and name of their base class.
#[derive(Debug)]
pub struct TextureConvention {
    pub package: Vec<u8>,
    pub base_namespace: Vec<u8>,
    pub base_name: Vec<u8>,
}

/// A texture in mathematical terms.
pub struct TextureModel {
    pub class_ns: Seq<u8>,
    pub class_name: Seq<u8>,
    pub super_ns: Seq<u8>,
    pub super_name: Seq<u8>,
    pub id: Option<u16>,
}

impl View for ExportedTexture {
    type V = TextureModel;

    open spec fn view(&self) -> TextureModel {
        TextureModel {
            class_ns: self.classname.namespace@,
            class_name: self.classname.name@,
            super_ns: self.supername.namespace@,
            super_name: self.supername.name@,
            id: self.id,
        }
    }
}

/// The fully qualified form of a class name: `namespace.name`.
pub open spec fn qualified(ns: Seq<u8>, name: Seq<u8>) -> Seq<u8> {
    ns + seq![46u8] + name
}

/// Whether a class with resolved name `n` and superclass name `s` is a texture.
pub open spec fn is_texture(conv: TextureConvention, n: (Seq<u8>, Seq<u8>), s: (Seq<u8>, Seq<u8>)) -> bool {
    n.0 == conv.package@ && s.0 == conv.base_namespace@ && s.1 == conv.base_name@
}

/// The textures among `insts`, in order, with no symbol id; or the first
/// resolution failure.
pub open spec fn unit_candidates(
    pool: PoolModel,
    insts: Seq<ClassInstance>,
    conv: TextureConvention,
) -> Result<Seq<TextureModel>, ResolveError>
    decreases insts.len(),
{
    if insts.len() == 0 {
        Ok(seq![])
    } else {
        match unit_candidates(pool, insts.drop_last(), conv) {
            Err(e) => Err(e),
            Ok(prev) => match pool.name_at(insts.last().name) {
                Err(e) => Err(e),
                Ok(n) => match pool.name_at(insts.last().super_name) {
                    Err(e) => Err(e),
                    Ok(s) => if is_texture(conv, n, s) {
                        Ok(prev.push(TextureModel { class_ns: n.0, class_name: n.1, super_ns: s.0, super_name: s.1, id: None }))
                    } else {
                        Ok(prev)
                    },
                },
            },
        }
    }
}

/// The textures of all `units`, in order; or the first resolution failure.
pub open spec fn all_candidates(units: Seq<UnitModel>, conv: TextureConvention) -> Result<Seq<TextureModel>, ResolveError>
    decreases units.len(),
{
    if units.len() == 0 {
        Ok(seq![])
    } else {
        match all_candidates(units.drop_last(), conv) {
            Err(e) => Err(e),
            Ok(prev) => match unit_candidates(units.last().pool, units.last().instances, conv) {
                Err(e) => Err(e),
                Ok(c) => Ok(prev + c),
            },
        }
    }
}

/// The id of the last link in `links` whose class name is `full`.
pub open spec fn linked_id(links: Seq<(u16, Seq<u8>)>, full: Seq<u8>) -> Option<u16>
    decreases links.len(),
{
    if links.len() == 0 {
        None
    } else if links.last().1 == full {
        Some(links.last().0)
    } else {
        linked_id(links.drop_last(), full)
    }
}

/// A texture after the join: the id of the last link naming its class, or the
/// id it had when no link names it.
pub open spec fn joined(t: TextureModel, links: Seq<(u16, Seq<u8>)>) -> TextureModel {
    TextureModel {
        id: match linked_id(links, qualified(t.class_ns, t.class_name)) {
            Some(i) => Some(i),
            None => t.id,
        },
        ..t
    }
}

/// Whether every texture of `r` is the join of the texture of `c` at the same
/// place.
pub open spec fn joined_all(c: Seq<TextureModel>, links: Seq<(u16, Seq<u8>)>, r: Seq<TextureModel>) -> bool {
    r.len() == c.len() && forall|i: int| 0 <= i < c.len() ==> #[trigger] r[i] == joined(c[i], links)
}

/// A bytecode unit declaring exactly one class, named in the convention's
/// package and derived from the convention's base class, together with a link
/// table of one link naming that class, yields exactly one texture, which
/// carries the link's symbol id.
pub proof fn lemma_single_texture_linked(unit: UnitModel, conv: TextureConvention, name: Seq<u8>, link: (u16, Seq<u8>))
    requires
        unit.instances.len() == 1,
        unit.pool.name_at(unit.instances[0].name) == Ok::<(Seq<u8>, Seq<u8>), ResolveError>((conv.package@, name)),
        unit.pool.name_at(unit.instances[0].super_name) == Ok::<(Seq<u8>, Seq<u8>), ResolveError>(
            (conv.base_namespace@, conv.base_name@),
        ),
        link.1 == qualified(conv.package@, name),
    ensures
        all_candidates(seq![unit], conv) is Ok,
        all_candidates(seq![unit], conv)->Ok_0.len() == 1,
        joined(all_candidates(seq![unit], conv)->Ok_0[0], seq![link]).id == Some(link.0),
        joined(all_candidates(seq![unit], conv)->Ok_0[0], seq![link]).class_name == name,
{
    let insts = unit.instances;
    assert(insts.drop_last() =~= Seq::<ClassInstance>::empty());
    assert(seq![unit].drop_last() =~= Seq::<UnitModel>::empty());
    assert(unit_candidates(unit.pool, insts.drop_last(), conv) == Ok::<Seq<TextureModel>, ResolveError>(seq![]));
    assert(insts.last() == insts[0]);
    assert(is_texture(conv, (conv.package@, name), (conv.base_namespace@, conv.base_name@)));
    let c = unit_candidates(unit.pool, insts, conv)->Ok_0;
    assert(unit_candidates(unit.pool, insts, conv) is Ok);
    assert(c.len() == 1);
    assert(all_candidates(seq![unit].drop_last(), conv) == Ok::<Seq<TextureModel>, ResolveError>(seq![]));
    assert(seq![unit].last() == unit);
    assert(all_candidates(seq![unit], conv) == Ok::<Seq<TextureModel>, ResolveError>(seq![] + c));
    assert(seq![] + c =~= c);
    assert(seq![link].drop_last() =~= Seq::<(u16, Seq<u8>)>::empty());
}

/// A texture whose fully qualified name no link of the table names keeps no
/// symbol id through the join: it stays unresolved.
pub proof fn lemma_unlinked_stays_unresolved(t: TextureModel, links: Seq<(u16, Seq<u8>)>)
    requires
        t.id is None,
        forall|i: int| 0 <= i < links.len() ==> #[trigger] links[i].1 != qualified(t.class_ns, t.class_name),
    ensures
        joined(t, links).id is None,
    decreases links.len(),
{
    if links.len() > 0 {
        let l = links.drop_last();
        assert(links.last().1 != qualified(t.class_ns, t.class_name));
        assert forall|i: int| 0 <= i < l.len() implies #[trigger] l[i].1 != qualified(t.class_ns, t.class_name) by {
            assert(l[i] == links[i]);
        }
        lemma_unlinked_stays_unresolved(t, l);
    }
}

/// Whether `full` is `namespace.name`.
pub fn qualified_matches(namespace: &Vec<u8>, name: &Vec<u8>, full: &Vec<u8>) -> (r: bool)
    ensures
        r == (full@ == qualified(namespace@, name@)),
{
    let q = Ghost(qualified(namespace@, name@));
    if full.len() <= namespace.len() || full.len() - namespace.len() - 1 != name.len() {
        return false;
    }
    let mut i: usize = 0;
    while i < namespace.len()
        invariant
            i <= namespace.len(),
            full.len() == namespace.len() + 1 + name.len(),
            q@ == qualified(namespace@, name@),
            forall|j: int| 0 <= j < i ==> full@[j] == q@[j],
        decreases namespace.len() - i,
    {
        if full[i] != namespace[i] {
            assert(full@[i as int] != q@[i as int]);
            return false;
        }
        i = i + 1;
    }
    if full[i] != 46u8 {
        assert(full@[i as int] != q@[i as int]);
        return false;
    }
    let mut k: usize = 0;
    while k < name.len()
        invariant
            k <= name.len(),
            i == namespace.len(),
            full.len() == namespace.len() + 1 + name.len(),
            q@ == qualified(namespace@, name@),
            forall|j: int| 0 <= j < i + 1 + k ==> full@[j] == q@[j],
        decreases name.len() - k,
    {
        if full[i + 1 + k] != name[k] {
            assert(full@[i + 1 + k] != q@[i + 1 + k]);
            return false;
        }
        k = k + 1;
    }
    assert(full@ =~= q@);
    true
}

/// Resolves the multiname at 1-based index `i` of the pool.
pub fn resolve_name_at<'a>(pool: &'a ConstantPool, i: u32) -> (r: Result<(&'a Vec<u8>, &'a Vec<u8>), ResolveError>)
    ensures
        match pool@.name_at(i) {
            Ok(p) => r is Ok && r->Ok_0.0@ == p.0 && r->Ok_0.1@ == p.1,
            Err(e) => r == Err::<(&Vec<u8>, &Vec<u8>), ResolveError>(e),
        },
{
    match pool.get_multiname(i) {
        Ok(m) => get_name(&m, pool),
        Err(e) => Err(e),
    }
}

/// Copies a resolved name pair into a class name.
fn class_name(p: (&Vec<u8>, &Vec<u8>)) -> (r: ClassName)
    ensures
        r.namespace@ == p.0@,
        r.name@ == p.1@,
{
    ClassName { namespace: copy_bytes(p.0), name: copy_bytes(p.1) }
}

/// Whether two byte strings are equal.
pub fn bytes_equal(a: &Vec<u8>, b: &Vec<u8>) -> (r: bool)
    ensures
        r == (a@ == b@),
{
    if a.len() != b.len() {
        return false;
    }
    let mut i: usize = 0;
    while i < a.len()
        invariant
            i <= a.len(),
            a.len() == b.len(),
            forall|j: int| 0 <= j < i ==> a@[j] == b@[j],
        decreases a.len() - i,
    {
        if a[i] != b[i] {
            return false;
        }
        i = i + 1;
    }
    assert(a@ == b@);
    true
}

/// The models of a sequence of textures.
pub open spec fn models(v: Seq<ExportedTexture>) -> Seq<TextureModel> {
    v.map_values(|t: ExportedTexture| t@)
}

/// A resolution failure within the first `i` instances is the failure of all
/// of them.
proof fn lemma_unit_error_persists(pool: PoolModel, insts: Seq<ClassInstance>, conv: TextureConvention, i: int)
    requires
        0 <= i <= insts.len(),
        unit_candidates(pool, insts.subrange(0, i), conv) is Err,
    ensures
        unit_candidates(pool, insts, conv) == unit_candidates(pool, insts.subrange(0, i), conv),
    decreases insts.len() - i,
{
    if i < insts.len() {
        assert(insts.subrange(0, i + 1).drop_last() == insts.subrange(0, i));
        lemma_unit_error_persists(pool, insts, conv, i + 1);
    } else {
        assert(insts.subrange(0, i) == insts);
    }
}

/// A resolution failure within the first `i` units is the failure of all of
/// them.
proof fn lemma_units_error_persists(units: Seq<UnitModel>, conv: TextureConvention, i: int)
    requires
        0 <= i <= units.len(),
        all_candidates(units.subrange(0, i), conv) is Err,
    ensures
        all_candidates(units, conv) == all_candidates(units.subrange(0, i), conv),
    decreases units.len() - i,
{
    if i < units.len() {
        assert(units.subrange(0, i + 1).drop_last() == units.subrange(0, i));
        lemma_units_error_persists(units, conv, i + 1);
    } else {
        assert(units.subrange(0, i) == units);
    }
}

/// The texture classes declared by one bytecode unit, in declaration order,
/// with no symbol id yet. A class is a texture when its namespace is the
/// convention's package and its superclass is the convention's base class.
/// Fails with the first name that does not resolve.
pub fn unit_textures(unit: &CodeUnit, conv: &TextureConvention) -> (r: Result<Vec<ExportedTexture>, ResolveError>)
    ensures
        match unit_candidates(unit.pool@, unit.instances@, *conv) {
            Ok(c) => r is Ok && models(r->Ok_0@) == c,
            Err(e) => r == Err::<Vec<ExportedTexture>, ResolveError>(e),
        },
{
    let mut out: Vec<ExportedTexture> = Vec::new();
    let mut i: usize = 0;
    assert(unit.instances@.subrange(0, 0) =~= Seq::<ClassInstance>::empty());
    assert(models(out@) =~= Seq::<TextureModel>::empty());
    while i < unit.instances.len()
        invariant
            i <= unit.instances.len(),
            unit_candidates(unit.pool@, unit.instances@.subrange(0, i as int), *conv) == Ok::<Seq<TextureModel>, ResolveError>(models(out@)),
        decreases unit.instances.len() - i,
    {
        let inst = unit.instances[i];
        let ghost prefix = unit.instances@.subrange(0, i + 1);
        assert(prefix.drop_last() == unit.instances@.subrange(0, i as int));
        assert(prefix.last() == inst);
        let n = match resolve_name_at(&unit.pool, inst.name) {
            Ok(n) => n,
            Err(e) => {
                proof { lemma_unit_error_persists(unit.pool@, unit.instances@, *conv, i + 1); }
                return Err(e);
            },
        };
        let s = match resolve_name_at(&unit.pool, inst.super_name) {
            Ok(s) => s,
            Err(e) => {
                proof { lemma_unit_error_persists(unit.pool@, unit.instances@, *conv, i + 1); }
                return Err(e);
            },
        };
        if bytes_equal(n.0, &conv.package) && bytes_equal(s.0, &conv.base_namespace) && bytes_equal(s.1, &conv.base_name) {
            let t = ExportedTexture { classname: class_name(n), supername: class_name(s), id: None };
            let ghost before = out@;
            out.push(t);
            assert(models(out@) =~= models(before).push(t@));
        }
        i = i + 1;
    }
    assert(unit.instances@.subrange(0, i as int) == unit.instances@);
    Ok(out)
}

/// The textures of all bytecode units, in unit order and then declaration
/// order, with no symbol id yet. Fails with the first name that does not
/// resolve.
pub fn all_textures(units: &Vec<CodeUnit>, conv: &TextureConvention) -> (r: Result<Vec<ExportedTexture>, ResolveError>)
    ensures
        match all_candidates(unit_models(units@), *conv) {
            Ok(c) => r is Ok && models(r->Ok_0@) == c,
            Err(e) => r == Err::<Vec<ExportedTexture>, ResolveError>(e),
        },
{
    let mut out: Vec<ExportedTexture> = Vec::new();
    let mut i: usize = 0;
    let ghost um = unit_models(units@);
    assert(um.subrange(0, 0) =~= Seq::<UnitModel>::empty());
    assert(models(out@) =~= Seq::<TextureModel>::empty());
    while i < units.len()
        invariant
            i <= units.len(),
            um == unit_models(units@),
            all_candidates(um.subrange(0, i as int), *conv) == Ok::<Seq<TextureModel>, ResolveError>(models(out@)),
        decreases units.len() - i,
    {
        let ghost prefix = um.subrange(0, i + 1);
        assert(prefix.drop_last() == um.subrange(0, i as int));
        assert(prefix.last() == units@[i as int]@);
        match unit_textures(&units[i], conv) {
            Err(e) => {
                proof { lemma_units_error_persists(um, *conv, i + 1); }
                return Err(e);
            },
            Ok(mut v) => {
                let ghost before = out@;
                let ghost added = v@;
                out.append(&mut v);
                assert(models(out@) =~= models(before) + models(added));
            },
        }
        i = i + 1;
    }
    assert(um.subrange(0, i as int) == um);
    Ok(out)
}

/// The id of the last link whose class name is `namespace.name`.
pub fn find_link(links: &Vec<SymbolLink>, namespace: &Vec<u8>, name: &Vec<u8>) -> (r: Option<u16>)
    ensures
        r == linked_id(link_models(links@), qualified(namespace@, name@)),
{
    let ghost q = qualified(namespace@, name@);
    let ghost lm = link_models(links@);
    let mut i: usize = links.len();
    assert(lm.subrange(0, i as int) == lm);
    while i > 0
        invariant
            i <= links.len(),
            q == qualified(namespace@, name@),
            lm == link_models(links@),
            linked_id(lm, q) == linked_id(lm.subrange(0, i as int), q),
        decreases i,
    {
        let ghost prefix = lm.subrange(0, i as int);
        assert(prefix.drop_last() == lm.subrange(0, i - 1));
        assert(prefix.last() == links@[i - 1]@);
        if qualified_matches(namespace, name, &links[i - 1].class_name) {
            return Some(links[i - 1].id);
        }
        i = i - 1;
    }
    None
}

/// Copies a class name.
fn copy_class_name(c: &ClassName) -> (r: ClassName)
    ensures
        r.namespace@ == c.namespace@,
        r.name@ == c.name@,
{
    ClassName { namespace: copy_bytes(&c.namespace), name: copy_bytes(&c.name) }
}

/// Joins the textures against a link table: each texture takes the id of the
/// last link whose class name is its fully qualified name, and keeps the id it
/// had when no link names it. The table is walked as a whole, so a later link
/// wins over an earlier one.
pub fn join_links(textures: &Vec<ExportedTexture>, links: &Vec<SymbolLink>) -> (r: Vec<ExportedTexture>)
    ensures
        joined_all(models(textures@), link_models(links@), models(r@)),
{
    let mut out: Vec<ExportedTexture> = Vec::new();
    let mut i: usize = 0;
    while i < textures.len()
        invariant
            i <= textures.len(),
            out.len() == i,
            forall|j: int| 0 <= j < i ==> #[trigger] out@[j]@ == joined(textures@[j]@, link_models(links@)),
        decreases textures.len() - i,
    {
        let t = &textures[i];
        let id = match find_link(links, &t.classname.namespace, &t.classname.name) {
            Some(id) => Some(id),
            None => t.id,
        };
        let u = ExportedTexture { classname: copy_class_name(&t.classname), supername: copy_class_name(&t.supername), id };
        assert(u@ == joined(t@, link_models(links@)));
        out.push(u);
        i = i + 1;
    }
    out
}

/// Why the textures of a document could not be listed.
#[derive(Clone, Copy, Debug, PartialEq, Eq, Structural)]
pub enum ScanError {
    /// The document or one of its bytecode units could not be decoded.
    Format(FormatError),
    /// A class name could not be resolved.
    Resolve(ResolveError),
}

/// The texture classes of a document, joined with its link table, and whether
/// a legacy bytecode unit was passed over.
pub struct TextureScan {
    pub textures: Vec<ExportedTexture>,
    pub legacy_code: bool,
}

/// The link table of `last_links`, or none when the document has no
/// symbol-class tag.
pub open spec fn links_or_empty(l: Option<Seq<(u16, Seq<u8>)>>) -> Seq<(u16, Seq<u8>)> {
    match l {
        Some(s) => s,
        None => seq![],
    }
}

/// Lists the textures of a document from its tags and its bytecode units: the
/// candidates of all units, joined with the link table of the last
/// symbol-class tag (with no table when there is none).
pub fn scan_units(tags: &Vec<Tag>, units: &Vec<CodeUnit>, conv: &TextureConvention) -> (r: Result<TextureScan, ResolveError>)
    ensures
        match all_candidates(unit_models(units@), *conv) {
            Ok(c) => r is Ok
                && joined_all(c, links_or_empty(last_links(tag_models(tags@))), models(r->Ok_0.textures@))
                && r->Ok_0.legacy_code == has_legacy(tag_models(tags@)),
            Err(e) => r == Err::<TextureScan, ResolveError>(e),
        },
{
    let candidates = match all_textures(units, conv) {
        Ok(c) => c,
        Err(e) => return Err(e),
    };
    let textures = match last_link_table(tags) {
        Some(links) => join_links(&candidates, links),
        None => {
            let empty: Vec<SymbolLink> = Vec::new();
            assert(link_models(empty@) =~= seq![]);
            join_links(&candidates, &empty)
        },
    };
    Ok(TextureScan { textures, legacy_code: has_legacy_code(tags) })
}

/// Lists the textures of a document given as bytes: decodes its tags, reads
/// its bytecode units and scans them. A document whose container or one of
/// whose bytecode units cannot be decoded is refused as a whole.
pub fn parse_swf_for_textures(data: &[u8], conv: &TextureConvention) -> (r: Result<TextureScan, ScanError>)
    ensures
        match document_tags(data@) {
            None => r == Err::<TextureScan, ScanError>(ScanError::Format(FormatError::Container)),
            Some(t) => match units_of(code_blobs(t)) {
                None => r == Err::<TextureScan, ScanError>(ScanError::Format(FormatError::Bytecode)),
                Some(u) => match all_candidates(u, *conv) {
                    Err(e) => r == Err::<TextureScan, ScanError>(ScanError::Resolve(e)),
                    Ok(c) => r is Ok
                        && joined_all(c, links_or_empty(last_links(t)), models(r->Ok_0.textures@))
                        && r->Ok_0.legacy_code == has_legacy(t),
                },
            },
        },
{
    let tags = match read_tags(data) {
        Ok(t) => t,
        Err(e) => return Err(ScanError::Format(e)),
    };
    let units = match read_code_units(&tags) {
        Ok(u) => u,
        Err(e) => return Err(ScanError::Format(e)),
    };
    match scan_units(&tags, &units, conv) {
        Ok(s) => Ok(s),
        Err(e) => Err(ScanError::Resolve(e)),
    }
}

} // verus!
