use framecore::store::CompiledProgram;
use framecore::store::PipelineConfig;
use framecore::store::PipelineErr;
use framecore::store::PipelineStore;
use framecore::store::ProgramKind;

fn config(path: &str) -> PipelineConfig {
    PipelineConfig {
        shader_path: path.to_string(),
        image_count: 2,
        workgroup_size: 32,
        push_constant_size: 12,
    }
}

#[test]
fn insert_returns_handle_and_get_finds_program() {
    let mut store = PipelineStore::new();
    assert_eq!(store.len(), 0);
    let k = store.insert(config("a.comp"), Ok(vec![1, 2, 3])).unwrap();
    assert_eq!(store.len(), 1);
    let program = store.get(k).unwrap();
    assert_eq!(program.id, 0);
    assert_eq!(program.code, vec![1, 2, 3]);
    assert!(matches!(program.kind, ProgramKind::Compute));
}

#[test]
fn insert_compile_error_leaves_store_unchanged() {
    let mut store = PipelineStore::new();
    let r = store.insert(
        config("a.comp"),
        Err(PipelineErr::ShaderCompilation("boom".to_string())),
    );
    match r {
        Err(PipelineErr::ShaderCompilation(m)) => assert_eq!(m, "boom"),
        Ok(_) => panic!("insert succeeded on a compile error"),
    }
    assert_eq!(store.len(), 0);
}

#[test]
fn get_unknown_handle_is_none() {
    let store = PipelineStore::new();
    let foreign: framecore::store::PipelineKey = Default::default();
    assert!(store.get(foreign).is_none());
}

#[test]
fn reload_zero_matches_is_noop() {
    let mut store = PipelineStore::new();
    let ka = store.insert(config("a.comp"), Ok(vec![10])).unwrap();
    let kb = store.insert(config("b.comp"), Ok(vec![20])).unwrap();
    assert_ne!(ka, kb);
    let path = "c.comp".to_string();
    store.reload(&path, Ok(vec![99])).unwrap();
    let pa = store.get(ka).unwrap();
    let pb = store.get(kb).unwrap();
    assert_eq!(pa.id, 0);
    assert_eq!(pa.code, vec![10]);
    assert_eq!(pb.id, 1);
    assert_eq!(pb.code, vec![20]);
}

#[test]
fn reload_replaces_only_matching_entry() {
    let mut store = PipelineStore::new();
    let ka = store.insert(config("a.comp"), Ok(vec![10])).unwrap();
    let kb = store.insert(config("b.comp"), Ok(vec![20])).unwrap();
    let path = "a.comp".to_string();
    store.reload(&path, Ok(vec![11])).unwrap();
    let pa = store.get(ka).unwrap();
    assert_eq!(pa.code, vec![11]);
    assert!(pa.id >= 2, "a replaced program must carry a fresh identity");
    let pb = store.get(kb).unwrap();
    assert_eq!(pb.id, 1, "the other handle's program must be untouched");
    assert_eq!(pb.code, vec![20]);
}

#[test]
fn reload_failure_keeps_previous_program() {
    let mut store = PipelineStore::new();
    let ka = store.insert(config("a.comp"), Ok(vec![10])).unwrap();
    let before = store.get(ka).unwrap();
    let path = "a.comp".to_string();
    let r = store.reload(
        &path,
        Err(PipelineErr::ShaderCompilation("syntax error".to_string())),
    );
    match r {
        Err(PipelineErr::ShaderCompilation(m)) => assert_eq!(m, "syntax error"),
        Ok(_) => panic!("reload succeeded on a compile error"),
    }
    let after = store.get(ka).unwrap();
    assert_eq!(after.id, before.id, "same program object by identity");
    assert_eq!(after.code, before.code);
}

#[test]
fn reload_unchanged_source_yields_fresh_identical_program() {
    let mut store = PipelineStore::new();
    let k = store.insert(config("p.comp"), Ok(vec![7, 8])).unwrap();
    let path = "p.comp".to_string();
    store.reload(&path, Ok(vec![7, 8])).unwrap();
    let p = store.get(k).expect("handle must stay valid across reload");
    assert_eq!(p.code, vec![7, 8], "functionally identical bytecode");
    assert_ne!(p.id, 0, "newly compiled program object");
}

#[test]
fn error_message_text_is_kept() {
    let e = PipelineErr::ShaderCompilation("missing entry point".to_string());
    assert_eq!(e.message(), "missing entry point");
}

#[test]
fn bind_point_follows_program_kind() {
    let c = CompiledProgram { id: 0, kind: ProgramKind::Compute, code: vec![] };
    assert!(matches!(c.bind_point(), ProgramKind::Compute));
    let g = CompiledProgram { id: 1, kind: ProgramKind::Graphics, code: vec![] };
    assert!(matches!(g.bind_point(), ProgramKind::Graphics));
}
