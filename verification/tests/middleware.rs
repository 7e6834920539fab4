use gql_logger::context::{QueryInfo, QueryInfoInner, MAX_QUERY_ID, MIN_QUERY_ID};
use gql_logger::document::{DocumentModel, OperationModel, SelectionModel};
use gql_logger::hooks::{duration_since, Logger, LoggerExtension, ResponseModel};
use gql_logger::lines::LogLevel;

fn ctx(id: u64, start_time_ms: i64, is_schema: bool) -> QueryInfoInner {
    QueryInfoInner {
        id,
        start_time_ms,
        is_schema,
    }
}

fn query_doc(field_names: &[&str]) -> DocumentModel {
    DocumentModel {
        operations: vec![OperationModel {
            is_query: true,
            selections: field_names
                .iter()
                .map(|n| SelectionModel::Field {
                    name: n.to_string(),
                })
                .collect(),
        }],
    }
}

#[test]
fn fresh_context_is_well_formed() {
    for _ in 0..100 {
        let q = QueryInfo::new();
        assert!(MIN_QUERY_ID <= q.inner.id && q.inner.id <= MAX_QUERY_ID);
        assert!(!q.inner.is_schema);
    }
}

#[test]
fn validation_failure_logs_one_line_per_error() {
    let ext = Logger.create();
    let errors = vec!["first reason".to_string(), "second reason".to_string()];
    let (outcome, lines) = ext.validation(Some(ctx(123456789, 0, false)), Err(errors.clone()));
    assert_eq!(outcome, Err(errors));
    assert_eq!(lines.len(), 2);
    assert_eq!(lines[0].level, LogLevel::Info);
    assert_eq!(
        lines[0].text,
        "[QueryID: 123456789] Validation is failed with reason: first reason"
    );
    assert_eq!(lines[1].level, LogLevel::Info);
    assert_eq!(
        lines[1].text,
        "[QueryID: 123456789] Validation is failed with reason: second reason"
    );
}

#[test]
fn validation_success_logs_nothing() {
    let ext = LoggerExtension;
    let (outcome, lines) = ext.validation(Some(ctx(123456789, 0, false)), Ok(()));
    assert_eq!(outcome, Ok(()));
    assert!(lines.is_empty());
}

#[test]
fn validation_without_context_logs_nothing() {
    let ext = LoggerExtension;
    let errors = vec!["reason".to_string()];
    let (outcome, lines) = ext.validation(None, Err(errors.clone()));
    assert_eq!(outcome, Err(errors));
    assert!(lines.is_empty());
}

#[test]
fn parse_non_schema_logs_query_text() {
    let ext = LoggerExtension;
    let doc = query_doc(&["health"]);
    let (info, lines) = ext.parse_query(Some(ctx(123456789, 0, false)), &doc, "{ health }");
    let info = info.expect("context must stay attached");
    assert!(!info.is_schema);
    assert_eq!(info.id, 123456789);
    assert_eq!(lines.len(), 1);
    assert_eq!(lines[0].level, LogLevel::Info);
    assert_eq!(lines[0].text, "[QueryID: 123456789] { health }");
}

#[test]
fn parse_schema_query_sets_flag_and_logs_nothing() {
    let ext = LoggerExtension;
    let doc = query_doc(&["__schema"]);
    let (info, lines) = ext.parse_query(
        Some(ctx(123456789, 0, false)),
        &doc,
        "{ __schema { types { name } } }",
    );
    let info = info.expect("context must stay attached");
    assert!(info.is_schema);
    assert_eq!(info.id, 123456789);
    assert!(lines.is_empty());
}

#[test]
fn parse_without_context_logs_nothing() {
    let ext = LoggerExtension;
    let doc = query_doc(&["health"]);
    let (info, lines) = ext.parse_query(None, &doc, "{ health }");
    assert!(info.is_none());
    assert!(lines.is_empty());
}

#[test]
fn mutation_selecting_schema_is_not_introspection() {
    let doc = DocumentModel {
        operations: vec![OperationModel {
            is_query: false,
            selections: vec![SelectionModel::Field {
                name: "__schema".to_string(),
            }],
        }],
    };
    assert!(!doc.is_schema_query());
}

#[test]
fn schema_field_among_others_is_introspection() {
    let doc = query_doc(&["health", "__schema", "version"]);
    assert!(doc.is_schema_query());
}

#[test]
fn fragment_selections_are_ignored() {
    let doc = DocumentModel {
        operations: vec![OperationModel {
            is_query: true,
            selections: vec![SelectionModel::Other],
        }],
    };
    assert!(!doc.is_schema_query());
}

#[test]
fn empty_document_is_not_introspection() {
    let doc = DocumentModel { operations: vec![] };
    assert!(!doc.is_schema_query());
}

#[test]
fn second_operation_can_request_schema() {
    let doc = DocumentModel {
        operations: vec![
            OperationModel {
                is_query: false,
                selections: vec![],
            },
            OperationModel {
                is_query: true,
                selections: vec![SelectionModel::Field {
                    name: "__schema".to_string(),
                }],
            },
        ],
    };
    assert!(doc.is_schema_query());
}

#[test]
fn execute_success_scenario() {
    let ext = LoggerExtension;
    let resp = ResponseModel {
        errors: vec![],
        data: "{\"health\":\"ok\"}".to_string(),
    };
    let (returned, lines) = ext.execute(Some(ctx(123456789, 1000, false)), resp.clone(), 1042);
    assert_eq!(returned, resp);
    assert_eq!(lines.len(), 2);
    assert_eq!(lines[0].level, LogLevel::Debug);
    assert_eq!(
        lines[0].text,
        "[QueryID: 123456789] Response: {\"health\":\"ok\"}"
    );
    assert_eq!(lines[1].level, LogLevel::Info);
    assert_eq!(lines[1].text, "[QueryID: 123456789] Duration: 42ms");
}

#[test]
fn execute_logs_each_response_error() {
    let ext = LoggerExtension;
    let resp = ResponseModel {
        errors: vec!["first".to_string(), "second".to_string()],
        data: "null".to_string(),
    };
    let (returned, lines) = ext.execute(Some(ctx(200000000, 0, false)), resp.clone(), 7);
    assert_eq!(returned, resp);
    assert_eq!(lines.len(), 4);
    assert_eq!(lines[0].level, LogLevel::Info);
    assert_eq!(lines[0].text, "[QueryID: 200000000] [Error] first");
    assert_eq!(lines[1].level, LogLevel::Info);
    assert_eq!(lines[1].text, "[QueryID: 200000000] [Error] second");
    assert_eq!(lines[2].level, LogLevel::Debug);
    assert_eq!(lines[2].text, "[QueryID: 200000000] Response: null");
    assert_eq!(lines[3].level, LogLevel::Info);
    assert_eq!(lines[3].text, "[QueryID: 200000000] Duration: 7ms");
}

#[test]
fn execute_schema_query_logs_nothing() {
    let ext = LoggerExtension;
    let resp = ResponseModel {
        errors: vec!["ignored".to_string()],
        data: "null".to_string(),
    };
    let (returned, lines) = ext.execute(Some(ctx(123456789, 0, true)), resp.clone(), 5000);
    assert_eq!(returned, resp);
    assert!(lines.is_empty());
}

#[test]
fn execute_without_context_logs_nothing() {
    let ext = LoggerExtension;
    let resp = ResponseModel {
        errors: vec!["ignored".to_string()],
        data: "null".to_string(),
    };
    let (returned, lines) = ext.execute(None, resp.clone(), 5000);
    assert_eq!(returned, resp);
    assert!(lines.is_empty());
}

#[test]
fn no_context_request_stays_silent_at_every_stage() {
    let ext = Logger.create();
    let errors = vec!["reason".to_string()];
    let (v, v_lines) = ext.validation(None, Err(errors.clone()));
    assert_eq!(v, Err(errors));
    assert!(v_lines.is_empty());

    let doc = query_doc(&["health"]);
    let (p, p_lines) = ext.parse_query(None, &doc, "{ health }");
    assert!(p.is_none());
    assert!(p_lines.is_empty());

    let resp = ResponseModel {
        errors: vec![],
        data: "null".to_string(),
    };
    let (e, e_lines) = ext.execute(None, resp.clone(), 1);
    assert_eq!(e, resp);
    assert!(e_lines.is_empty());
}

#[test]
fn introspection_request_stays_silent_after_parse() {
    let ext = Logger.create();
    let doc = query_doc(&["__schema"]);
    let (info, p_lines) = ext.parse_query(
        Some(ctx(321654987, 100, false)),
        &doc,
        "{ __schema { types { name } } }",
    );
    let info = info.expect("context must stay attached");
    assert!(info.is_schema);
    assert!(p_lines.is_empty());

    let resp = ResponseModel {
        errors: vec![],
        data: "{\"__schema\":{}}".to_string(),
    };
    let (returned, e_lines) = ext.execute(Some(info), resp.clone(), 175);
    assert_eq!(returned, resp);
    assert!(e_lines.is_empty());
}

#[test]
fn duration_is_clamped_difference() {
    assert_eq!(duration_since(1000, 1042), 42);
    assert_eq!(duration_since(1042, 1000), -42);
    assert_eq!(duration_since(i64::MIN, i64::MAX), i64::MAX);
    assert_eq!(duration_since(i64::MAX, i64::MIN), i64::MIN);
    assert_eq!(duration_since(-5, 5), 10);
}
