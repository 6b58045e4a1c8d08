use diesel::result::Error;
use diesel_repository::{dummy_pool, DummyPool, FindAllRepo, Paged, ViewCount};

struct DummyRepo;

impl FindAllRepo<u32> for DummyRepo {
    fn find_all(&self) -> Result<Vec<u32>, Error> {
        Ok(vec![1, 2, 3])
    }
}

#[test]
fn test_find_all_sync() {
    let repo = DummyRepo;
    let res = repo.find_all();
    assert_eq!(res.unwrap(), vec![1, 2, 3]);
}

#[test]
fn paged_carries_its_metadata_unchanged() {
    let p = Paged::new(vec!["a", "b"], 12, 0, 2);
    assert_eq!(p.items, vec!["a", "b"]);
    assert_eq!(p.total_count, 12);
    assert_eq!(p.page, 0);
    assert_eq!(p.per_page, 2);
}

#[test]
fn sample_values() {
    assert_eq!(dummy_pool(), DummyPool);
    assert_eq!(ViewCount { count: 7 }.count, 7);
}
