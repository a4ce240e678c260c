use aspy::fusion::{fuse_ranks, DocKey, FusedDoc};

fn key(s: Option<&str>, t: &str) -> DocKey {
    DocKey { session_id: s.map(|x| x.to_string()), timestamp: t.to_string() }
}

#[test]
fn fusion_merges_documents_across_lists() {
    let fts = vec![key(Some("a"), "1"), key(None, "2"), key(Some("a"), "3")];
    let sem = vec![key(Some("a"), "3"), key(Some("b"), "9"), key(Some("b"), "9")];
    let r = fuse_ranks(&fts, &sem);
    assert_eq!(r.len(), 4);
    assert_eq!(r[0], FusedDoc { fts_rank: Some(0), vec_rank: None, from_fts: true, source: 0 });
    assert_eq!(r[1], FusedDoc { fts_rank: Some(1), vec_rank: None, from_fts: true, source: 1 });
    assert_eq!(r[2], FusedDoc { fts_rank: Some(2), vec_rank: Some(0), from_fts: true, source: 2 });
    assert_eq!(r[3], FusedDoc { fts_rank: None, vec_rank: Some(2), from_fts: false, source: 1 });
}

#[test]
fn fusion_keeps_the_last_keyword_rank_of_a_duplicate() {
    let fts = vec![key(Some("s"), "t"), key(Some("x"), "y"), key(Some("s"), "t")];
    let r = fuse_ranks(&fts, &vec![]);
    assert_eq!(r.len(), 2);
    assert_eq!(r[0], FusedDoc { fts_rank: Some(2), vec_rank: None, from_fts: true, source: 2 });
}

#[test]
fn fusion_of_nothing_is_empty() {
    assert!(fuse_ranks(&vec![], &vec![]).is_empty());
    let sem = vec![key(None, "1")];
    assert_eq!(fuse_ranks(&vec![], &sem), vec![FusedDoc { fts_rank: None, vec_rank: Some(0), from_fts: false, source: 0 }]);
}

#[test]
fn sessions_belong_to_their_user() {
    use_session_checks();
}

fn use_session_checks() {
    assert!(aspy::fusion::session_of_user(Some("dev-1/abc"), "dev-1"));
    assert!(aspy::fusion::session_of_user(Some("team/dev-1/abc"), "dev-1"));
    assert!(!aspy::fusion::session_of_user(Some("dev-2/abc"), "dev-1"));
    assert!(!aspy::fusion::session_of_user(None, "dev-1"));
    assert!(aspy::fusion::session_of_user(Some("anything"), ""));
    let sessions = vec![Some("dev-1/a".to_string()), None, Some("x/dev-1".to_string()), Some("foundry/b".to_string())];
    assert_eq!(aspy::fusion::user_result_positions(&sessions, "dev-1"), vec![0, 2]);
}

#[test]
fn keyword_fallback_keeps_the_first_results() {
    assert_eq!(aspy::fusion::keyword_fallback(vec![1, 2, 3, 4], 2), vec![1, 2]);
    assert_eq!(aspy::fusion::keyword_fallback(vec![1, 2], 5), vec![1, 2]);
    assert!(aspy::fusion::keyword_fallback(vec![1, 2], 0).is_empty());
}

#[test]
fn semantic_results_are_capped_at_twice_the_limit() {
    assert_eq!(aspy::fusion::semantic_cap(vec![1, 2, 3, 4, 5, 6, 7], 3), vec![1, 2, 3, 4, 5, 6]);
    assert_eq!(aspy::fusion::semantic_cap(vec![1, 2, 3], 3), vec![1, 2, 3]);
    assert!(aspy::fusion::semantic_cap(vec![1, 2, 3], 0).is_empty());
}
