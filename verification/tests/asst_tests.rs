use buddy::{AsstId, AsstSummary, CreateConfig, Error, GatewayModel, LoadPlan};
use buddy::{first_by_name, load_or_create_plan};

fn summary(id: &str, name: Option<&str>) -> AsstSummary {
    AsstSummary {
        id: id.to_string(),
        name: name.map(|n| n.to_string()),
        instructions: None,
    }
}

fn model(assts: Vec<AsstSummary>, fresh: Vec<&str>) -> GatewayModel {
    GatewayModel {
        assts,
        fresh_ids: fresh.into_iter().map(|s| s.to_string()).collect(),
        n_created: 0,
        n_deleted: 0,
    }
}

#[test]
fn load_twice_returns_same_id() {
    // Reuse is idempotent: the second call returns the same identifier and
    // creates nothing.
    let mut gw = model(vec![], vec!["a-2", "a-1"]);
    let cfg = CreateConfig { name: "buddy-02".to_string(), model: "m".to_string() };
    let id1 = gw.load_or_create_asst(&cfg, false);
    let id2 = gw.load_or_create_asst(&cfg, false);
    assert_eq!(id1.0, "a-1");
    assert_eq!(id2.0, "a-1");
    assert_eq!(gw.n_created, 1);
    assert_eq!(gw.n_deleted, 0);
}

#[test]
fn load_existing_returns_its_id() {
    let mut gw = model(vec![summary("a-old", Some("buddy-02"))], vec!["a-new"]);
    let cfg = CreateConfig { name: "buddy-02".to_string(), model: "m".to_string() };
    let id = gw.load_or_create_asst(&cfg, false);
    assert_eq!(id.0, "a-old");
    assert_eq!(gw.n_created, 0);
    assert_eq!(gw.n_deleted, 0);
    assert_eq!(gw.assts.len(), 1);
}

#[test]
fn recreate_deletes_then_creates_fresh() {
    // Exactly one delete and one create; the new identifier differs from
    // the old one.
    let mut gw = model(vec![summary("a-old", Some("buddy-02"))], vec!["a-new"]);
    let cfg = CreateConfig { name: "buddy-02".to_string(), model: "m".to_string() };
    let id = gw.load_or_create_asst(&cfg, true);
    assert_eq!(id.0, "a-new");
    assert_ne!(id.0, "a-old");
    assert_eq!(gw.n_deleted, 1);
    assert_eq!(gw.n_created, 1);
    assert_eq!(gw.assts.len(), 1);
    assert_eq!(gw.assts[0].id, "a-new");
}

#[test]
fn absent_name_only_creates() {
    // No same-named assistant: zero deletes and one create, whatever the
    // recreate flag says.
    for recreate in [false, true] {
        let mut gw = model(vec![summary("a-1", Some("other"))], vec!["a-2"]);
        let cfg = CreateConfig { name: "buddy-02".to_string(), model: "m".to_string() };
        let id = gw.load_or_create_asst(&cfg, recreate);
        assert_eq!(id.0, "a-2");
        assert_eq!(gw.n_deleted, 0);
        assert_eq!(gw.n_created, 1);
        assert_eq!(gw.assts.len(), 2);
    }
}

#[test]
fn first_by_name_absent_on_empty_list() {
    let assts: Vec<AsstSummary> = vec![];
    assert!(first_by_name(&assts, &"buddy-02".to_string()).is_none());
}

#[test]
fn first_by_name_absent_on_one_mismatch() {
    let assts = vec![summary("a-1", Some("other"))];
    assert!(first_by_name(&assts, &"buddy-02".to_string()).is_none());
}

#[test]
fn first_by_name_absent_on_many_mismatches() {
    // Exact, case-sensitive match only: neither different case nor a
    // substring counts, and an unnamed assistant never matches.
    let assts = vec![
        summary("a-1", Some("Buddy-02")),
        summary("a-2", Some("buddy-02x")),
        summary("a-3", Some("buddy")),
        summary("a-4", None),
    ];
    assert!(first_by_name(&assts, &"buddy-02".to_string()).is_none());
}

#[test]
fn first_by_name_returns_first_exact_match() {
    let assts = vec![
        summary("a-1", Some("other")),
        summary("a-2", Some("buddy-02")),
        summary("a-3", Some("buddy-02")),
    ];
    let found = first_by_name(&assts, &"buddy-02".to_string()).unwrap();
    assert_eq!(found.id, "a-2");
}

#[test]
fn plan_by_lookup_and_flag() {
    assert_eq!(load_or_create_plan(true, false), LoadPlan::Load);
    assert_eq!(load_or_create_plan(true, true), LoadPlan::DeleteThenCreate);
    assert_eq!(load_or_create_plan(false, false), LoadPlan::Create);
    assert_eq!(load_or_create_plan(false, true), LoadPlan::Create);
}

#[test]
fn delete_removes_only_the_named_assistant() {
    let mut gw = model(
        vec![summary("a-1", Some("x")), summary("a-2", Some("y"))],
        vec![],
    );
    gw.delete(&AsstId("a-1".to_string()));
    assert_eq!(gw.n_deleted, 1);
    assert_eq!(gw.assts.len(), 1);
    assert_eq!(gw.assts[0].id, "a-2");
}

#[test]
fn upload_instructions_overwrites_text() {
    let mut gw = model(vec![summary("a-1", Some("x"))], vec![]);
    let r = gw.upload_instructions(&AsstId("a-1".to_string()), "be helpful".to_string());
    assert_eq!(r, Ok(()));
    assert_eq!(gw.assts[0].instructions.as_deref(), Some("be helpful"));
    assert_eq!(gw.assts[0].name.as_deref(), Some("x"));
}

#[test]
fn upload_instructions_missing_id_is_not_found() {
    let mut gw = model(vec![summary("a-1", Some("x"))], vec![]);
    let r = gw.upload_instructions(&AsstId("a-9".to_string()), "text".to_string());
    assert_eq!(r, Err(Error::NotFound));
    assert_eq!(gw.assts[0].instructions, None);
}

#[test]
fn create_asst_assigns_fresh_id_and_name() {
    let mut gw = model(vec![], vec!["a-7"]);
    let cfg = CreateConfig { name: "buddy-02".to_string(), model: "m".to_string() };
    let id = gw.create_asst(&cfg);
    assert_eq!(id.0, "a-7");
    assert_eq!(gw.assts.len(), 1);
    assert_eq!(gw.assts[0].name.as_deref(), Some("buddy-02"));
    assert_eq!(gw.assts[0].instructions, None);
    assert_eq!(gw.n_created, 1);
}

#[test]
fn id_types_convert_from_strings() {
    let a = AsstId::from("asst_1".to_string());
    let t = buddy::ThreadId::from("thread_1".to_string());
    let f = buddy::FileId::from("file_1".to_string());
    assert_eq!(a.0, "asst_1");
    assert_eq!(t.0, "thread_1");
    assert_eq!(f.0, "file_1");
}
