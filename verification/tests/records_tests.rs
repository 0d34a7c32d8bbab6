use viraith::records::Board;
use viraith::records::Card;
use viraith::records::Column;
use viraith::records::Project;
use viraith::records::should_skip;
use viraith::records::str_eq;

#[test]
fn fresh_card_defaults() {
    let card = Card::new(
        "id-1".to_string(),
        "col-1".to_string(),
        "Title".to_string(),
        Some("desc".to_string()),
        3,
        1000,
    );
    assert_eq!(card.id, "id-1");
    assert_eq!(card.column_id, "col-1");
    assert_eq!(card.title, "Title");
    assert_eq!(card.description, Some("desc".to_string()));
    assert_eq!(card.folder_path, None);
    assert_eq!(card.file_paths, "[]");
    assert_eq!(card.agent_config, "{}");
    assert_eq!(card.position, 3);
    assert_eq!(card.status, "idle");
    assert_eq!(card.created_at, 1000);
    assert_eq!(card.updated_at, 1000);
    assert_eq!(card.metadata, "{}");
}

#[test]
fn fresh_project_defaults() {
    let p = Project::new("p1".to_string(), "Proj".to_string(), "/tmp/x".to_string(), 42);
    assert_eq!(p.id, "p1");
    assert_eq!(p.name, "Proj");
    assert_eq!(p.root_path, "/tmp/x");
    assert_eq!(p.created_at, 42);
    assert_eq!(p.updated_at, 42);
    assert_eq!(p.settings, "{}");
}

#[test]
fn fresh_board_and_column_defaults() {
    let b = Board::new("b1".to_string(), "p1".to_string(), "Board".to_string(), 0, 5);
    assert_eq!(b.id, "b1");
    assert_eq!(b.project_id, "p1");
    assert_eq!(b.name, "Board");
    assert_eq!(b.position, 0);
    assert_eq!(b.created_at, 5);

    let c = Column::new("c1".to_string(), "b1".to_string(), "Todo".to_string(), 1, 6);
    assert_eq!(c.id, "c1");
    assert_eq!(c.board_id, "b1");
    assert_eq!(c.name, "Todo");
    assert_eq!(c.position, 1);
    assert_eq!(c.automation_rules, "[]");
    assert_eq!(c.created_at, 6);
}

#[test]
fn skip_rules() {
    assert!(should_skip(".git"));
    assert!(should_skip(".hidden"));
    assert!(should_skip("node_modules"));
    assert!(should_skip("target"));
    assert!(should_skip("dist"));
    assert!(!should_skip("src"));
    assert!(!should_skip(""));
    assert!(!should_skip("distx"));
    assert!(!should_skip("Target"));
    assert!(!should_skip("my.file"));
}

#[test]
fn string_equality() {
    assert!(str_eq("", ""));
    assert!(str_eq("abc", "abc"));
    assert!(!str_eq("abc", "abd"));
    assert!(!str_eq("abc", "ab"));
    assert!(str_eq("naïve", "naïve"));
    assert!(!str_eq("naïve", "naive"));
}
