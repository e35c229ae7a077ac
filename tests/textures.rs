use export_textures::atlas::{atlas_offset, crop_rect, CropRect};
use export_textures::capture::{
    CaptureAction, CaptureError, CaptureEvent, CapturePlan, CaptureState, Phase, PlanError,
};
use export_textures::document::{
    has_legacy_code, last_link_table, read_code_unit, read_tags, CodeUnit, FormatError, SymbolLink, Tag,
};
use export_textures::matcher::{
    all_textures, find_link, join_links, parse_swf_for_textures, qualified_matches, scan_units, unit_textures,
    ClassName, ExportedTexture, ScanError, TextureConvention,
};
use export_textures::pool::{
    get_name, get_namespace_name, ClassInstance, ConstantPool, Multiname, NameKind, Namespace, ResolveError,
};

fn b(s: &str) -> Vec<u8> {
    s.as_bytes().to_vec()
}

fn convention() -> TextureConvention {
    TextureConvention {
        package: b("com.exported.textures"),
        base_namespace: b("com.lachhh.flash"),
        base_name: b("FlashAnimationTexture"),
    }
}

/// A pool with the texture package (1), "Foo" (2), the base package (3), the
/// base name (4) and "Bar" (5); namespaces over strings 1 and 3; qualified
/// names Foo (1), the base class (2) and Bar in the base package (3).
fn texture_pool() -> ConstantPool {
    ConstantPool {
        strings: vec![
            b("com.exported.textures"),
            b("Foo"),
            b("com.lachhh.flash"),
            b("FlashAnimationTexture"),
            b("Bar"),
        ],
        namespaces: vec![Namespace::Package(1), Namespace::Package(3)],
        multinames: vec![
            Multiname::QName { namespace: 1, name: 2 },
            Multiname::QName { namespace: 2, name: 4 },
            Multiname::QName { namespace: 2, name: 5 },
        ],
    }
}

fn texture(ns: &str, name: &str, id: Option<u16>) -> ExportedTexture {
    ExportedTexture {
        classname: ClassName { namespace: b(ns), name: b(name) },
        supername: ClassName { namespace: b("com.lachhh.flash"), name: b("FlashAnimationTexture") },
        id,
    }
}

fn link(id: u16, name: &str) -> SymbolLink {
    SymbolLink { id, class_name: b(name) }
}

fn push_u30(out: &mut Vec<u8>, v: u8) {
    out.push(v);
}

fn push_str(out: &mut Vec<u8>, s: &str) {
    push_u30(out, s.len() as u8);
    out.extend_from_slice(s.as_bytes());
}

/// A bytecode unit declaring `com.exported.textures.Foo`, derived from
/// `com.lachhh.flash.FlashAnimationTexture`.
fn abc_blob() -> Vec<u8> {
    let mut a = vec![16, 0, 46, 0];
    a.extend_from_slice(&[0, 0, 0]);
    push_u30(&mut a, 5);
    for s in ["com.exported.textures", "Foo", "com.lachhh.flash", "FlashAnimationTexture"] {
        push_str(&mut a, s);
    }
    a.extend_from_slice(&[3, 0x16, 1, 0x16, 3]);
    a.push(0);
    a.extend_from_slice(&[3, 0x07, 1, 2, 0x07, 2, 4]);
    a.extend_from_slice(&[1, 0, 0, 0, 0]);
    a.push(0);
    a.extend_from_slice(&[1, 1, 2, 0, 0, 0, 0]);
    a.extend_from_slice(&[0, 0]);
    a.extend_from_slice(&[0, 0]);
    a
}

fn tag(code: u16, body: &[u8]) -> Vec<u8> {
    let mut t = ((code << 6) | 0x3f).to_le_bytes().to_vec();
    t.extend_from_slice(&(body.len() as u32).to_le_bytes());
    t.extend_from_slice(body);
    t
}

fn do_abc2_tag(blob: &[u8]) -> Vec<u8> {
    let mut body = vec![1, 0, 0, 0];
    body.extend_from_slice(b"unit\0");
    body.extend_from_slice(blob);
    tag(82, &body)
}

fn symbol_class_tag(links: &[(u16, &str)]) -> Vec<u8> {
    let mut body = (links.len() as u16).to_le_bytes().to_vec();
    for (id, name) in links {
        body.extend_from_slice(&id.to_le_bytes());
        body.extend_from_slice(name.as_bytes());
        body.push(0);
    }
    tag(76, &body)
}

/// An uncompressed document holding `tags`, then an end tag.
fn document(tags: &[Vec<u8>]) -> Vec<u8> {
    let mut body = vec![0u8, 0, 24, 1, 0];
    for t in tags {
        body.extend_from_slice(t);
    }
    body.extend_from_slice(&[0, 0]);
    let mut d = b("FWS");
    d.push(10);
    d.extend_from_slice(&((body.len() + 8) as u32).to_le_bytes());
    d.extend_from_slice(&body);
    d
}

#[test]
fn namespace_kinds_resolve_to_same_string() {
    let pool = texture_pool();
    let kinds = [
        Namespace::Namespace(3),
        Namespace::Package(3),
        Namespace::PackageInternal(3),
        Namespace::Protected(3),
        Namespace::Explicit(3),
        Namespace::StaticProtected(3),
        Namespace::Private(3),
    ];
    for k in kinds.iter() {
        assert_eq!(get_namespace_name(k, &pool).unwrap(), &b("com.lachhh.flash"));
    }
}

#[test]
fn namespace_index_out_of_range() {
    let pool = texture_pool();
    assert_eq!(get_namespace_name(&Namespace::Private(0), &pool), Err(ResolveError::StringIndex(0)));
    assert_eq!(get_namespace_name(&Namespace::Package(6), &pool), Err(ResolveError::StringIndex(6)));
}

#[test]
fn qualified_name_resolves() {
    let pool = texture_pool();
    let (ns, name) = get_name(&Multiname::QName { namespace: 1, name: 2 }, &pool).unwrap();
    assert_eq!(ns, &b("com.exported.textures"));
    assert_eq!(name, &b("Foo"));
    assert_eq!(get_name(&Multiname::QName { namespace: 3, name: 2 }, &pool), Err(ResolveError::NamespaceIndex(3)));
    assert_eq!(get_name(&Multiname::QName { namespace: 1, name: 9 }, &pool), Err(ResolveError::StringIndex(9)));
}

#[test]
fn other_name_kinds_are_unsupported() {
    let pool = texture_pool();
    let kinds = [
        NameKind::QNameA,
        NameKind::RTQName,
        NameKind::RTQNameA,
        NameKind::RTQNameL,
        NameKind::RTQNameLA,
        NameKind::Multiname,
        NameKind::MultinameA,
        NameKind::MultinameL,
        NameKind::MultinameLA,
        NameKind::TypeName,
    ];
    for k in kinds.iter() {
        assert_eq!(get_name(&Multiname::Other(*k), &pool), Err(ResolveError::UnsupportedNameKind(*k)));
    }
}

#[test]
fn single_texture_gets_linked_id() {
    let unit = CodeUnit { pool: texture_pool(), instances: vec![ClassInstance { name: 1, super_name: 2 }] };
    let tags = vec![Tag::Code(vec![]), Tag::SymbolClass(vec![link(5, "com.exported.textures.Foo")])];
    let scan = scan_units(&tags, &vec![unit], &convention()).unwrap();
    assert_eq!(scan.textures.len(), 1);
    assert_eq!(scan.textures[0].id, Some(5));
    assert_eq!(scan.textures[0].classname.name, b("Foo"));
    assert!(!scan.legacy_code);
}

#[test]
fn selection_needs_package_and_base_class() {
    let unit = CodeUnit {
        pool: texture_pool(),
        instances: vec![
            ClassInstance { name: 1, super_name: 2 },
            ClassInstance { name: 3, super_name: 2 },
            ClassInstance { name: 1, super_name: 3 },
            ClassInstance { name: 1, super_name: 2 },
        ],
    };
    let found = unit_textures(&unit, &convention()).unwrap();
    assert_eq!(found.len(), 2);
    assert!(found.iter().all(|t| t.id.is_none() && t.classname.name == b("Foo")));
}

#[test]
fn unresolvable_instance_fails_selection() {
    let unit = CodeUnit {
        pool: texture_pool(),
        instances: vec![ClassInstance { name: 1, super_name: 2 }, ClassInstance { name: 7, super_name: 2 }],
    };
    assert_eq!(unit_textures(&unit, &convention()).err(), Some(ResolveError::MultinameIndex(7)));
    let mut pool = texture_pool();
    pool.multinames.push(Multiname::Other(NameKind::RTQNameL));
    let unit = CodeUnit { pool, instances: vec![ClassInstance { name: 4, super_name: 2 }] };
    assert_eq!(
        all_textures(&vec![unit], &convention()).err(),
        Some(ResolveError::UnsupportedNameKind(NameKind::RTQNameL))
    );
}

#[test]
fn unlinked_texture_stays_unresolved_and_is_reported() {
    let joined = join_links(&vec![texture("com.exported.textures", "Foo", None)], &vec![link(3, "com.exported.textures.Other")]);
    assert_eq!(joined[0].id, None);
    let plan = CapturePlan::new(&joined, 2048, 2048, 400, 300).unwrap();
    let (s, a) = plan.step(plan.start(), CaptureEvent::Done);
    assert_eq!(a, CaptureAction::Report { index: 0, error: CaptureError::Unresolved });
    let (_, a) = plan.step(s, CaptureEvent::Done);
    assert_eq!(a, CaptureAction::Finish);
}

#[test]
fn last_symbol_class_table_wins() {
    let tags = vec![
        Tag::SymbolClass(vec![link(1, "com.exported.textures.Foo"), link(2, "com.exported.textures.Bar")]),
        Tag::Other,
        Tag::SymbolClass(vec![link(9, "com.exported.textures.Foo")]),
        Tag::Code(vec![]),
    ];
    let table = last_link_table(&tags).unwrap();
    assert_eq!(table.len(), 1);
    assert_eq!(table[0].id, 9);
    let joined = join_links(
        &vec![texture("com.exported.textures", "Foo", None), texture("com.exported.textures", "Bar", None)],
        table,
    );
    assert_eq!(joined[0].id, Some(9));
    assert_eq!(joined[1].id, None);
}

#[test]
fn later_link_overrides_earlier() {
    let links = vec![link(1, "a.B"), link(2, "a.B"), link(3, "a.C")];
    assert_eq!(find_link(&links, &b("a"), &b("B")), Some(2));
    assert_eq!(find_link(&links, &b("a"), &b("D")), None);
}

#[test]
fn qualified_name_matching() {
    assert!(qualified_matches(&b("com.x"), &b("Foo"), &b("com.x.Foo")));
    assert!(!qualified_matches(&b("com.x"), &b("Foo"), &b("com.xFoo")));
    assert!(!qualified_matches(&b("com.x"), &b("Foo"), &b("com.x_Foo")));
    assert!(!qualified_matches(&b("com.x"), &b("Foo"), &b("com.x.Fo")));
    assert!(qualified_matches(&b(""), &b(""), &b(".")));
}

#[test]
fn no_link_table_leaves_ids_empty() {
    let unit = CodeUnit { pool: texture_pool(), instances: vec![ClassInstance { name: 1, super_name: 2 }] };
    let tags = vec![Tag::LegacyCode, Tag::Code(vec![])];
    assert!(last_link_table(&tags).is_none());
    let scan = scan_units(&tags, &vec![unit], &convention()).unwrap();
    assert_eq!(scan.textures.len(), 1);
    assert_eq!(scan.textures[0].id, None);
    assert!(scan.legacy_code);
    assert!(has_legacy_code(&tags));
    assert!(!has_legacy_code(&vec![Tag::Other]));
}

#[test]
fn atlas_offset_centres_stage() {
    assert_eq!(atlas_offset(2048, 400), 824);
    assert_eq!(atlas_offset(2048, 300), 874);
    assert_eq!(atlas_offset(5, 2), 2);
    assert_eq!(atlas_offset(7, 7), 0);
}

#[test]
fn crop_rect_within_surface() {
    assert_eq!(crop_rect(824, 874, 100, 50, 2048, 2048), Some(CropRect { x: 824, y: 874, width: 100, height: 50 }));
    assert_eq!(crop_rect(824, 874, 1224, 1174, 2048, 2048), Some(CropRect { x: 824, y: 874, width: 1224, height: 1174 }));
    assert_eq!(crop_rect(824, 874, 1225, 10, 2048, 2048), None);
    assert_eq!(crop_rect(0, 0, 10, 4000, 2048, 2048), None);
}

#[test]
fn plan_refuses_stage_larger_than_surface() {
    let t = vec![texture("com.exported.textures", "Foo", Some(1))];
    assert_eq!(CapturePlan::new(&t, 2048, 2048, 4000, 300).err(), Some(PlanError::StageLargerThanAtlas));
    let plan = CapturePlan::new(&t, 2048, 2048, 400, 300).unwrap();
    assert_eq!((plan.origin_x, plan.origin_y), (824, 874));
    assert_eq!(plan.symbols, vec![Some(1)]);
}

#[test]
fn capture_runs_each_step_in_order() {
    let t = vec![texture("com.exported.textures", "Foo", Some(7)), texture("com.exported.textures", "Bar", Some(8))];
    let plan = CapturePlan::new(&t, 2048, 2048, 400, 300).unwrap();
    let s = plan.start();
    let (s, a) = plan.step(s, CaptureEvent::Done);
    assert_eq!(a, CaptureAction::ResetStage);
    let (s, a) = plan.step(s, CaptureEvent::Done);
    assert_eq!(a, CaptureAction::Instantiate { symbol: 7 });
    let (s, a) = plan.step(s, CaptureEvent::Measured { x_min: -200, y_min: 40, width: 30, height: 20 });
    assert_eq!(a, CaptureAction::Reanchor { x: 200, y: -40 });
    let (s, a) = plan.step(s, CaptureEvent::Done);
    assert_eq!(a, CaptureAction::Render);
    let (s, a) = plan.step(s, CaptureEvent::Captured);
    assert_eq!(a, CaptureAction::Save { index: 0, crop: CropRect { x: 824, y: 874, width: 30, height: 20 } });
    assert_eq!(s, CaptureState { index: 1, phase: Phase::Next });
    let (s, a) = plan.step(s, CaptureEvent::Done);
    assert_eq!(a, CaptureAction::ResetStage);
    let (s, a) = plan.step(s, CaptureEvent::Done);
    assert_eq!(a, CaptureAction::Instantiate { symbol: 8 });
    let (s, _) = plan.step(s, CaptureEvent::Measured { x_min: 0, y_min: 0, width: 5, height: 5 });
    let (s, _) = plan.step(s, CaptureEvent::Done);
    let (s, a) = plan.step(s, CaptureEvent::RenderFailed);
    assert_eq!(a, CaptureAction::Report { index: 1, error: CaptureError::RenderFailed });
    let (s, a) = plan.step(s, CaptureEvent::Done);
    assert_eq!(a, CaptureAction::Finish);
    assert_eq!(s.phase, Phase::Finished);
}

#[test]
fn capture_reports_rect_outside_surface_and_odd_events() {
    let t = vec![texture("com.exported.textures", "Foo", Some(7)), texture("com.exported.textures", "Bar", Some(8))];
    let plan = CapturePlan::new(&t, 2048, 2048, 400, 300).unwrap();
    let (s, _) = plan.step(plan.start(), CaptureEvent::Done);
    let (s, _) = plan.step(s, CaptureEvent::Done);
    let (s, _) = plan.step(s, CaptureEvent::Measured { x_min: 0, y_min: 0, width: 1300, height: 20 });
    let (s, _) = plan.step(s, CaptureEvent::Done);
    let (s, a) = plan.step(s, CaptureEvent::Captured);
    assert_eq!(a, CaptureAction::Report { index: 0, error: CaptureError::OutsideAtlas });
    let (s, _) = plan.step(s, CaptureEvent::Done);
    let (_, a) = plan.step(s, CaptureEvent::Captured);
    assert_eq!(a, CaptureAction::Report { index: 1, error: CaptureError::UnexpectedEvent });
}

#[test]
fn document_with_texture_is_scanned() {
    let doc = document(&[do_abc2_tag(&abc_blob()), symbol_class_tag(&[(5, "com.exported.textures.Foo")])]);
    let scan = parse_swf_for_textures(&doc, &convention()).unwrap();
    assert_eq!(scan.textures.len(), 1);
    assert_eq!(scan.textures[0].id, Some(5));
    assert_eq!(scan.textures[0].classname.namespace, b("com.exported.textures"));
    assert_eq!(scan.textures[0].supername.name, b("FlashAnimationTexture"));
}

#[test]
fn document_tags_are_read() {
    let doc = document(&[
        symbol_class_tag(&[(1, "a.B")]),
        do_abc2_tag(&abc_blob()),
        symbol_class_tag(&[(4, "com.exported.textures.Foo"), (6, "x.Y")]),
    ]);
    let tags = read_tags(&doc).unwrap();
    assert!(matches!(&tags[1], Tag::Code(b) if *b == abc_blob()));
    let table = last_link_table(&tags).unwrap();
    assert_eq!(table.len(), 2);
    assert_eq!((table[0].id, table[0].class_name.clone()), (4, b("com.exported.textures.Foo")));
    let scan = parse_swf_for_textures(&doc, &convention()).unwrap();
    assert_eq!(scan.textures[0].id, Some(4));
}

#[test]
fn code_unit_is_read() {
    let unit = read_code_unit(&abc_blob()).unwrap();
    assert_eq!(unit.pool.strings.len(), 4);
    assert_eq!(unit.pool.strings[1], b("Foo"));
    assert_eq!(unit.pool.namespaces, vec![Namespace::Package(1), Namespace::Package(3)]);
    assert_eq!(unit.pool.multinames[1], Multiname::QName { namespace: 2, name: 4 });
    assert_eq!(unit.instances, vec![ClassInstance { name: 1, super_name: 2 }]);
}

#[test]
fn malformed_input_is_a_format_error() {
    assert_eq!(read_tags(b"not a document").err(), Some(FormatError::Container));
    assert_eq!(parse_swf_for_textures(b"FWS", &convention()).err(), Some(ScanError::Format(FormatError::Container)));
    assert_eq!(read_code_unit(&[16, 0]).err(), Some(FormatError::Bytecode));
    let doc = document(&[do_abc2_tag(&[16, 0, 46])]);
    assert_eq!(parse_swf_for_textures(&doc, &convention()).err(), Some(ScanError::Format(FormatError::Bytecode)));
}

#[test]
fn scanning_twice_gives_the_same_textures() {
    let doc = document(&[do_abc2_tag(&abc_blob()), symbol_class_tag(&[(5, "com.exported.textures.Foo")])]);
    let a = parse_swf_for_textures(&doc, &convention()).unwrap();
    let b2 = parse_swf_for_textures(&doc, &convention()).unwrap();
    assert_eq!(a.textures.len(), b2.textures.len());
    assert_eq!(a.textures[0].id, b2.textures[0].id);
    assert_eq!(a.textures[0].classname.name, b2.textures[0].classname.name);
}

#[test]
fn missing_symbol_is_reported() {
    let t = vec![texture("com.exported.textures", "Foo", Some(7))];
    let plan = CapturePlan::new(&t, 2048, 2048, 400, 300).unwrap();
    let (s, _) = plan.step(plan.start(), CaptureEvent::Done);
    let (s, _) = plan.step(s, CaptureEvent::Done);
    let (s, a) = plan.step(s, CaptureEvent::SymbolMissing);
    assert_eq!(a, CaptureAction::Report { index: 0, error: CaptureError::SymbolMissing });
    let (_, a) = plan.step(s, CaptureEvent::Done);
    assert_eq!(a, CaptureAction::Finish);
}

#[test]
fn document_tables_are_not_merged() {
    let doc = document(&[
        symbol_class_tag(&[(5, "com.exported.textures.Foo")]),
        do_abc2_tag(&abc_blob()),
        symbol_class_tag(&[(7, "com.exported.textures.Bar")]),
    ]);
    let scan = parse_swf_for_textures(&doc, &convention()).unwrap();
    assert_eq!(scan.textures.len(), 1);
    assert_eq!(scan.textures[0].id, None);
}
