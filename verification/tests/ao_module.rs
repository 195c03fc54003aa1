use cu::client::ao_module::{
    create_find_module_query, create_save_module_query, find_module_result, stream_id,
    to_module_doc, ModuleDocSchema, ModuleQuerySchema,
};
use cu::errors::CuErrors;
use cu::model::model::{ModuleSchema, RawTagSchema};

fn module() -> ModuleSchema {
    ModuleSchema {
        id: "mod-123".to_string(),
        tags: vec![RawTagSchema {
            name: "Module-Format".to_string(),
            value: "wasm32-unknown-emscripten".to_string(),
        }],
        owner: "owner-123".to_string(),
    }
}

const TAGS_JSON: &str = "[{\"name\":\"Module-Format\",\"value\":\"wasm32-unknown-emscripten\"}]";

#[test]
fn test_find_the_module() {
    let query = create_find_module_query("mod-123");
    assert_eq!(query.parameters, vec!["mod-123".to_string()]);
    let row = ModuleQuerySchema {
        id: "mod-123".to_string(),
        owner: "owner-123".to_string(),
        tags: "[{\"name\":\"foo\",\"value\":\"bar\"}]".to_string(),
    };
    let tags = vec![RawTagSchema { name: "foo".to_string(), value: "bar".to_string() }];
    match find_module_result(Some((row, tags))) {
        Ok(res) => {
            let res = res.unwrap();
            assert!(res.id == "mod-123");
            assert!(res.tags[0].name == "foo");
            assert!(res.tags[0].value == "bar");
            assert!(res.owner == "owner-123");
        },
        Err(e) => panic!("{}", e.message()),
    }
}

#[test]
fn ao_module_test_return_404_status_if_not_found() {
    match find_module_result(None) {
        Ok(_) => panic!("Returned unexpected row item"),
        Err(CuErrors::HttpStatus(e)) => {
            assert!(e.status == 404);
            assert_eq!(e.message, "Module not found");
        },
        Err(_) => panic!("Returned unexpected error"),
    }
}

#[test]
fn test_save_the_module() {
    let query = create_save_module_query(to_module_doc(module()), TAGS_JSON.to_string());
    assert!(query.parameters[0] == "mod-123");
    assert!(query.parameters[1] == TAGS_JSON);
    assert!(query.parameters[2] == "owner-123");
}

#[test]
fn test_noop_if_the_module_already_exists() {
    let query = create_save_module_query(to_module_doc(module()), TAGS_JSON.to_string());
    assert!(query.sql.contains("INSERT OR IGNORE"));
}

#[test]
fn module_doc_needs_id_and_owner() {
    let doc = ModuleDocSchema { id: "".to_string(), owner: "o".to_string(), tags: vec![] };
    assert!(!doc.validate());
    assert!(to_module_doc(module()).validate());
}

#[test]
fn stream_ids_have_eight_bytes() {
    let a = stream_id();
    assert_eq!(a.len(), 8);
}

#[test]
fn saved_module_reads_back_from_its_parameters() {
    let q = create_save_module_query(to_module_doc(module()), TAGS_JSON.to_string());
    let row = ModuleQuerySchema {
        id: q.parameters[0].clone(),
        tags: q.parameters[1].clone(),
        owner: q.parameters[2].clone(),
    };
    let found = find_module_result(Some((row, module().tags))).ok().unwrap().unwrap();
    assert_eq!(found.id, "mod-123");
    assert_eq!(found.owner, "owner-123");
    assert_eq!(found.tags[0].value, "wasm32-unknown-emscripten");
}

#[test]
fn random_anchors_have_32_bytes() {
    assert_eq!(cu::client::arweave::create_random_anchor().len(), 32);
}
