use account_server::dto::{
    filter_is_well_formed, handle_filter, AtomFilter, ColumnPredicate, Condition, Filter,
    FilterCondition, Order, OrderDto, PageableQuery, PageableQueryDto,
};
use account_server::enums::OperationPermission;
use account_server::error::ServerError;
use account_server::info::{BuildInfo, Info};
use account_server::routes::auth::login_response;
use account_server::routes::session::{visit_counter, VisitOutcome};
use account_server::routes::upload::{
    classify_chunk_field, content_disposition, ChunkField, ChunkForm, UploadFormError,
};
use account_server::session::{
    delete_session_decision, logout_cookie, session_from_token, session_id_from_cookie,
    AuthRejection, Session, SessionDeletion, SessionTokenPayload,
};
use account_server::settings::Settings;

fn session_with(codes: &[&str]) -> Session {
    Session {
        session_id: 1,
        payload: SessionTokenPayload {
            user_id: 7,
            permissions: codes.iter().map(|c| c.to_string()).collect(),
        },
    }
}

#[test]
fn permission_checks() {
    let session = session_with(&["query_users", "create_user"]);
    assert!(session.has_permission("query_users"));
    assert!(!session.has_permission("delete_user"));
    assert!(session.assert_has_permission("create_user").is_ok());
    match session.assert_has_permission("delete_user") {
        Err(e) => {
            assert_eq!(e.status(), 403);
            assert_eq!(e.code(), "forbidden");
        }
        Ok(()) => panic!("expected Forbidden"),
    }
    assert!(session.has_operation_permission(OperationPermission::QueryUsers));
    assert!(session.assert_has_operation_permission(OperationPermission::DeleteUser).is_err());
    let both = vec!["query_users".to_string(), "create_user".to_string()];
    let mixed = vec!["delete_user".to_string(), "create_user".to_string()];
    let none: Vec<String> = vec![];
    assert!(session.has_all_permissions(&both));
    assert!(!session.has_all_permissions(&mixed));
    assert!(session.has_any_permissions(&mixed));
    assert!(session.has_all_permissions(&none));
    assert!(!session.has_any_permissions(&none));
    assert!(session.assert_has_any_permissions(&mixed).is_ok());
    assert!(session.assert_has_all_permissions(&mixed).is_err());
    assert!(session.assert_has_any_permissions(&none).is_err());
}

#[test]
fn login_cookie_names_its_session() {
    let token: u128 = 0x67e5504410b1426f9247bb680e5fe0c8;
    let (cookie, body) = login_response(token, 42, "alice".to_string());
    assert_eq!(cookie.name, "id");
    assert_eq!(cookie.value, "67e55044-10b1-426f-9247-bb680e5fe0c8");
    assert_eq!(cookie.path, "/");
    assert!(cookie.http_only);
    assert_eq!(cookie.max_age_seconds, None);
    assert_eq!(session_id_from_cookie(Some(&cookie.value)), Ok(token));
    assert_eq!(body.user_id, 42);
    assert_eq!(body.account, "alice");
    let out = logout_cookie();
    assert_eq!(out.value, "");
    assert_eq!(out.max_age_seconds, Some(0));
}

#[test]
fn session_cookie_is_checked() {
    assert_eq!(session_id_from_cookie(None), Err(AuthRejection::Unauthorized));
    assert_eq!(session_id_from_cookie(Some("not-a-uuid")), Err(AuthRejection::Unauthorized));
    assert_eq!(
        session_id_from_cookie(Some("67e5504410b1426f9247bb680e5fe0c8")),
        Ok(0x67e5504410b1426f9247bb680e5fe0c8)
    );
    assert!(session_from_token(3, None).is_err());
    let session = session_from_token(3, Some(SessionTokenPayload { user_id: 9, permissions: vec![] })).ok().unwrap();
    assert_eq!(session.session_id, 3);
    assert_eq!(session.payload.user_id, 9);
    assert_eq!(AuthRejection::Unauthorized.status(), 401);
    assert_eq!(AuthRejection::Unauthorized.message(), "Unauthorized");
}

#[test]
fn only_owners_delete_sessions() {
    assert_eq!(delete_session_decision(5, None), SessionDeletion::NothingToDelete);
    assert_eq!(delete_session_decision(5, Some(5)), SessionDeletion::Delete);
    assert_eq!(delete_session_decision(5, Some(6)), SessionDeletion::Forbidden);
}

#[test]
fn visit_counter_counts_and_resets() {
    match visit_counter(None) {
        VisitOutcome::Counted { next_cookie, message } => {
            assert_eq!(next_cookie, "1");
            assert_eq!(message, "You've been here 0 times before");
        }
        VisitOutcome::Reset => panic!(),
    }
    match visit_counter(Some("10")) {
        VisitOutcome::Counted { next_cookie, .. } => assert_eq!(next_cookie, "11"),
        VisitOutcome::Reset => panic!(),
    }
    match visit_counter(Some("-3")) {
        VisitOutcome::Counted { next_cookie, message } => {
            assert_eq!(next_cookie, "-2");
            assert_eq!(message, "You've been here -3 times before");
        }
        VisitOutcome::Reset => panic!(),
    }
    assert!(matches!(visit_counter(Some("11")), VisitOutcome::Reset));
    assert!(matches!(visit_counter(Some("junk")), VisitOutcome::Counted { .. }));
}

fn atom(field: &str, condition: FilterCondition<i32>) -> Filter<i32> {
    Filter::Atom(AtomFilter { field: field.to_string(), condition })
}

#[test]
fn filters_translate_to_conditions() {
    let filter = Filter::And(vec![
        atom("age", FilterCondition::Between(vec![18, 65, 99])),
        Filter::Or(vec![
            atom("name", FilterCondition::Like("a%".to_string())),
            atom("deleted_at", FilterCondition::IsNull),
        ]),
    ]);
    assert!(filter_is_well_formed(&filter));
    match handle_filter(filter) {
        Condition::All(parts) => {
            assert_eq!(parts.len(), 2);
            match &parts[0] {
                Condition::Column(c, ColumnPredicate::Between(low, high)) => {
                    assert_eq!(c, "age");
                    assert_eq!((*low, *high), (18, 65));
                }
                _ => panic!(),
            }
            match &parts[1] {
                Condition::Any(alts) => {
                    assert_eq!(alts.len(), 2);
                    assert!(matches!(&alts[1], Condition::Column(c, ColumnPredicate::IsNull) if c == "deleted_at"));
                }
                _ => panic!(),
            }
        }
        _ => panic!(),
    }
    assert!(!filter_is_well_formed(&Filter::Or(vec![atom("x", FilterCondition::Between(vec![1]))])));
    assert!(matches!(handle_filter(Filter::<i32>::And(vec![])), Condition::All(v) if v.is_empty()));
    assert!(matches!(handle_filter(atom("n", FilterCondition::Ge(3))), Condition::Column(_, ColumnPredicate::Gte(3))));
}

#[test]
fn pageable_query_moves_fields() {
    let dto = PageableQueryDto {
        page: 2,
        page_size: 20,
        filter: Some("f"),
        orders: Some(vec![
            OrderDto { field: "name", order: Order::Asc },
            OrderDto { field: "age", order: Order::Desc },
        ]),
    };
    let query: PageableQuery<String, String> = dto.into_query();
    assert_eq!(query.page, 2);
    assert_eq!(query.page_size, 20);
    assert_eq!(query.condition, Some("f".to_string()));
    assert_eq!(
        query.orders,
        Some(vec![("name".to_string(), Order::Asc), ("age".to_string(), Order::Desc)])
    );
    let plain: PageableQuery<u64, u64> =
        PageableQueryDto::<u32, u32> { page: 1, page_size: 0, filter: None, orders: None }.into_query();
    assert_eq!(plain.condition, None);
    assert!(plain.orders.is_none());
}

#[test]
fn chunk_form_collects_fields() {
    assert_eq!(classify_chunk_field(Some("uploadId")), ChunkField::UploadId);
    assert_eq!(classify_chunk_field(Some("index")), ChunkField::Index);
    assert_eq!(classify_chunk_field(Some("chunk")), ChunkField::Chunk);
    assert_eq!(classify_chunk_field(Some("other")), ChunkField::Other);
    assert_eq!(classify_chunk_field(None), ChunkField::Other);

    let mut form = ChunkForm::new();
    assert!(form.accept_upload_id(Some("67e55044-10b1-426f-9247-bb680e5fe0c8")).is_ok());
    assert!(form.accept_index(Some("3")).is_ok());
    assert!(matches!(form.accept_index(Some("x")), Err(UploadFormError::InvalidI32)));
    assert!(matches!(form.accept_index(None), Err(UploadFormError::Multipart)));
    assert!(matches!(form.accept_upload_id(Some("nope")), Err(UploadFormError::UuidSyntax)));
    assert!(matches!(form.accept_upload_id(None), Err(UploadFormError::InvalidUuid)));
    assert!(matches!(form.accept_chunk(None), Err(UploadFormError::InvalidBytes)));
    assert!(form.accept_chunk(Some(vec![1, 2, 3])).is_ok());
    let params = form.finish().ok().unwrap();
    assert_eq!(params.upload_id, 0x67e5504410b1426f9247bb680e5fe0c8);
    assert_eq!(params.index, 3);
    assert_eq!(params.chunk, vec![1, 2, 3]);

    let mut partial = ChunkForm::new();
    partial.accept_chunk(Some(vec![])).unwrap();
    match partial.finish() {
        Err(UploadFormError::MissingField(f)) => assert_eq!(f, "uploadId"),
        _ => panic!(),
    }
    let mut partial = ChunkForm::new();
    partial.accept_upload_id(Some("67e5504410b1426f9247bb680e5fe0c8")).unwrap();
    match partial.finish() {
        Err(UploadFormError::MissingField(f)) => assert_eq!(f, "index"),
        _ => panic!(),
    }
}

#[test]
fn download_header_encodes_file_name() {
    assert_eq!(content_disposition("report 1.pdf"), "attachment; filename*=UTF-8''report%201.pdf");
    assert_eq!(content_disposition("résumé.txt"), "attachment; filename*=UTF-8''r%C3%A9sum%C3%A9.txt");
}

#[test]
fn settings_json_is_indented_after_first_line() {
    let json = "{\n  \"a\": 1,\n  \"b\": 2\n}";
    assert_eq!(Settings::json_pretty(json, 4), "{\n      \"a\": 1,\n      \"b\": 2\n    }");
    assert_eq!(Settings::json_pretty("", 4), "");
    assert_eq!(Settings::json_pretty("x\r\ny\n", 2), "x\n  y");
    assert_eq!(Settings::json_pretty("x\n\nz\r", 1), "x\n \n z\r");
}

fn settings(debug: Option<bool>) -> Settings {
    Settings {
        database_url: "postgres://db".to_string(),
        server_port: 4000,
        private_key: "private.pem".to_string(),
        public_key: "public.pem".to_string(),
        upload_dir: "uploads".to_string(),
        debug,
    }
}

fn build() -> BuildInfo {
    BuildInfo {
        name: "server".to_string(),
        authors: "someone".to_string(),
        version: "0.1.0".to_string(),
        branch: "main".to_string(),
        commit: "abc1234".to_string(),
        rustc_version: "rustc 1.88".to_string(),
        os: "linux".to_string(),
        family: "unix".to_string(),
        target: "x86_64-unknown-linux-gnu".to_string(),
        endian: "little".to_string(),
        profile: "debug".to_string(),
    }
}

#[test]
fn info_banner_lists_build_and_addresses() {
    let text = Info.render("SERVER", &build(), &settings(None), "{}");
    let expected = "SERVER\nBuilt info:\n    Name:    server\n    Authors: someone\n    Version: 0.1.0\n    Branch:  main\n    Commit:  abc1234\n    Build:   rustc 1.88\n    OS:      linux\n    Family:  unix\n    Arch:    x86_64-unknown-linux-gnu\n    Endian:  little\n    Profile: debug\n    Server:  http://localhost:4000\n    Api doc: http://localhost:4000/docs\n    Api def: http://localhost:4000/openapi.json\n";
    assert_eq!(text, expected);
    let debug = Info.render("SERVER", &build(), &settings(Some(true)), "{\n  \"debug\": true\n}");
    assert!(debug.contains("    Configs: {\n      \"debug\": true\n    }\n    Server:  http://localhost:4000\n"));
}

#[test]
fn server_error_from_forbidden_is_forbidden() {
    let session = session_with(&[]);
    let err: ServerError = session.assert_has_permission("x").unwrap_err();
    assert!(matches!(err, ServerError::Exception(_)));
}

#[test]
fn filter_into_condition_translates_atoms() {
    let filter = Filter::Atom(account_server::dto::AtomFilter {
        field: "total".to_string(),
        condition: FilterCondition::NotIn(vec![1, 2]),
    });
    match filter.into_condition() {
        Condition::Column(c, ColumnPredicate::IsNotIn(vs)) => {
            assert_eq!(c, "total");
            assert_eq!(vs, vec![1, 2]);
        }
        _ => panic!(),
    }
}

#[test]
fn pages_convert_their_records() {
    let page = account_server::response::PaginatedData::<String>::from_page((vec!["a", "bc"], 7));
    assert_eq!(page.records, vec!["a".to_string(), "bc".to_string()]);
    assert_eq!(page.total, 7);
    let page = account_server::rest::PaginatedData::<u64>::from_page((vec![3u32, 4u32], 2));
    assert_eq!(page.records, vec![3u64, 4u64]);
    assert_eq!(page.total, 2);
    let empty = account_server::rest::PaginatedData::<u64>::from_page((Vec::<u32>::new(), 0));
    assert!(empty.records.is_empty());
}

#[test]
fn session_cookie_key_is_id() {
    assert_eq!(account_server::session::SESSION_ID_KEY, "id");
    assert_eq!(login_response(5, 6, "bob".to_string()).0.name, account_server::session::SESSION_ID_KEY);
}

#[test]
fn downloads_of_missing_files_are_not_found() {
    use_download();
}

fn use_download() {
    let found = account_server::routes::upload::download_disposition(Some("a b.txt"), true).unwrap();
    assert_eq!(found, "attachment; filename*=UTF-8''a%20b.txt");
    for (name, opened) in [(None, true), (None, false), (Some("x"), false)] {
        match account_server::routes::upload::download_disposition(name, opened) {
            Err(ServerError::Exception(e)) => {
                assert_eq!(e.code(), account_server::error::ServerExceptionCode::NotFound)
            }
            _ => panic!("expected not found"),
        }
    }
}

#[test]
fn session_cookie_holds_hyphenated_uuid() {
    let cookie = account_server::session::login_cookie(0x0123456789abcdef0011223344556677);
    assert_eq!(cookie.value, "01234567-89ab-cdef-0011-223344556677");
    assert_eq!(account_server::session::login_cookie(0).value, "00000000-0000-0000-0000-000000000000");
}
