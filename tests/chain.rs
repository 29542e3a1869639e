use space_program::chain::{plan_chain, CHAIN_LINKS};

#[test]
fn chain_has_every_link_in_order() {
    let links = plan_chain(CHAIN_LINKS);
    assert_eq!(links.len(), 100);
    for (i, l) in links.iter().enumerate() {
        assert_eq!(l.index as usize, i);
        assert!(l.vx_percent < 100);
        assert!(l.vy_percent < 100);
        assert!(l.vz_percent < 100);
    }
}

#[test]
fn empty_chain() {
    assert!(plan_chain(0).is_empty());
}
