use rembed::batch::{best_index, filter_request, items_with_contents, reorder_by_index, BatchColumn, BatchCursor, ConstraintInfo, ConstraintUse, PlanError};
use rembed::clients::{ClientHandle, EmbeddingClient};
use rembed::error::{RembedError, ResponseProblem};
use rembed::json::Json;
use rembed::registry::Registry;

fn c(column: i32, usable: bool, is_eq: bool) -> ConstraintInfo {
    ConstraintInfo { column, usable, is_eq }
}

fn registry() -> Registry {
    let mut r = Registry::new();
    let client = EmbeddingClient::new("ollama::nomic-embed-text".to_string(), None).unwrap();
    r.insert("default".to_string(), ClientHandle::Embedding(client.clone()));
    r.insert("local".to_string(), ClientHandle::Embedding(client));
    r
}

#[test]
fn plan_binds_both_arguments() {
    let plan = best_index(&vec![c(0, true, true), c(2, true, true), c(3, true, true)]).unwrap();
    assert_eq!(
        plan.uses,
        vec![
            ConstraintUse { omit: false, argv_index: 0 },
            ConstraintUse { omit: true, argv_index: 1 },
            ConstraintUse { omit: true, argv_index: 2 },
        ]
    );
    assert_eq!(plan.estimated_cost, 100000);
    assert_eq!(plan.estimated_rows, 100000);
    assert_eq!(plan.idxnum, 2);
}

#[test]
fn plan_requires_first_argument() {
    assert_eq!(best_index(&vec![c(3, true, true)]).unwrap_err(), PlanError::Error);
    assert_eq!(best_index(&vec![]).unwrap_err(), PlanError::Error);
}

#[test]
fn plan_rejects_unusable_argument_constraint() {
    assert_eq!(best_index(&vec![c(2, false, true)]).unwrap_err(), PlanError::Constraint);
    assert_eq!(best_index(&vec![c(2, true, true), c(3, true, false)]).unwrap_err(), PlanError::Constraint);
}

#[test]
fn columns_by_position() {
    assert_eq!(rembed::batch::column(0), Some(BatchColumn::Contents));
    assert_eq!(rembed::batch::column(4), Some(BatchColumn::Source));
    assert_eq!(rembed::batch::column(5), None);
}

#[test]
fn scan_yields_one_row_per_item_in_order() {
    let r = registry();
    let args = vec!["local".to_string(), r#"[{"contents": "a", "id": 1}, {"contents": "b"}, {"contents": "c"}]"#.to_string()];
    let req = filter_request(&r, &args).unwrap();
    match req.client {
        ClientHandle::Embedding(c) => assert_eq!(c.model, "ollama::nomic-embed-text"),
        _ => panic!("expected the text-embedding client"),
    }
    assert_eq!(req.texts, vec!["a".to_string(), "b".to_string(), "c".to_string()]);
    let vectors: Vec<Vec<u8>> = vec![vec![1], vec![2], vec![3]];
    let mut cursor = BatchCursor::new();
    assert!(cursor.eof());
    cursor.load(req.items, vectors).unwrap();
    let mut rows = Vec::new();
    while !cursor.eof() {
        rows.push((cursor.rowid(), cursor.contents().unwrap().to_string(), cursor.embedding().unwrap().clone()));
        cursor.next();
    }
    assert_eq!(
        rows,
        vec![(0, "a".to_string(), vec![1]), (1, "b".to_string(), vec![2]), (2, "c".to_string(), vec![3])]
    );
}

#[test]
fn scan_with_one_argument_uses_default_client() {
    let r = registry();
    let req = filter_request(&r, &vec![r#"[{"contents": "x"}]"#.to_string()]).unwrap();
    assert_eq!(req.texts, vec!["x".to_string()]);
}

#[test]
fn scan_errors() {
    let r = registry();
    let err = filter_request(&r, &vec!["nobody".to_string(), "[]".to_string()]).err().unwrap();
    assert_eq!(err.message(), "Client with name nobody was not registered with rembed_clients.");
    let err = filter_request(&r, &vec!["local".to_string(), "not json".to_string()]).err().unwrap();
    assert!(matches!(err, RembedError::MalformedInput(_)));
    let err = filter_request(&r, &vec!["local".to_string(), r#"[{"text": "a"}]"#.to_string()]).err().unwrap();
    assert!(matches!(err, RembedError::MalformedInput(_)));
}

#[test]
fn scan_rejects_wrong_vector_count() {
    let r = registry();
    let req = filter_request(&r, &vec![r#"[{"contents": "x"}, {"contents": "y"}]"#.to_string()]).unwrap();
    let mut cursor: BatchCursor<Vec<u8>> = BatchCursor::new();
    let err = cursor.load(req.items, vec![vec![1]]).unwrap_err();
    assert!(matches!(err, RembedError::ProviderResponse { problem: ResponseProblem::WrongCount, .. }));
    assert!(cursor.eof());
}

#[test]
fn scan_rejects_empty_array() {
    let r = registry();
    let err = filter_request(&r, &vec!["local".to_string(), "[]".to_string()]).err().unwrap();
    assert!(matches!(err, RembedError::EmptyInput));
}

#[test]
fn reorder_puts_vectors_back_in_input_order() {
    let out = reorder_by_index(vec![(2, "c"), (0, "a"), (1, "b")], 3).unwrap();
    assert_eq!(out, vec!["a", "b", "c"]);
}

#[test]
fn reorder_rejects_bad_positions() {
    assert!(reorder_by_index(vec![(0, 'a'), (0, 'b')], 2).is_err());
    assert!(reorder_by_index(vec![(0, 'a'), (5, 'b')], 2).is_err());
    assert!(reorder_by_index(vec![(0, 'a')], 2).is_err());
    assert_eq!(reorder_by_index::<char>(vec![], 0).unwrap(), vec![]);
}

#[test]
fn items_with_contents_shapes() {
    let doc = Json::Array(vec![Json::Object(vec![("contents".to_string(), Json::Str("t".to_string()))])]);
    let (items, texts) = items_with_contents(doc).unwrap();
    assert_eq!(items.len(), 1);
    assert_eq!(texts, vec!["t".to_string()]);
    assert!(matches!(items_with_contents(Json::Array(vec![])), Err(RembedError::EmptyInput)));
    assert!(matches!(items_with_contents(Json::Null), Err(RembedError::MalformedInput(_))));
    let doc = Json::Array(vec![Json::Object(vec![("contents".to_string(), Json::Null)])]);
    assert!(matches!(items_with_contents(doc), Err(RembedError::MalformedInput(_))));
}

#[test]
fn scan_on_mock_client() {
    let mut r = registry();
    r.insert("mock".to_string(), ClientHandle::Mock(rembed::mock::MockAdapter::new(4)));
    let req = filter_request(&r, &vec!["mock".to_string(), r#"[{"contents": "a"}, {"contents": "b"}]"#.to_string()]).unwrap();
    assert!(matches!(req.client, ClientHandle::Mock(_)));
    assert_eq!(req.texts, vec!["a".to_string(), "b".to_string()]);
}
