use dao_rollup::address::Address;
use dao_rollup::numbers::U256;
use dao_rollup::table::Table;

#[test]
fn what_is_inserted_is_found() {
    let mut table: Table<U256, u8> = Table::new();
    assert_eq!(table.len(), 0);
    assert_eq!(table.get(U256::from_u64(4)), None);
    table.insert(U256::from_u64(4), 40);
    table.insert(U256::from_u64(2), 20);
    table.insert(U256 { hi: 1, lo: 0 }, 99);
    table.insert(U256::from_u64(3), 30);
    assert_eq!(table.len(), 4);
    assert_eq!(table.get(U256::from_u64(2)), Some(&20));
    assert_eq!(table.get(U256::from_u64(3)), Some(&30));
    assert_eq!(table.get(U256::from_u64(4)), Some(&40));
    assert_eq!(table.get(U256 { hi: 1, lo: 0 }), Some(&99));
    assert_eq!(table.get(U256::from_u64(5)), None);
}

#[test]
fn an_insertion_replaces() {
    let mut table: Table<U256, u8> = Table::new();
    table.insert(U256::from_u64(4), 40);
    table.insert(U256::from_u64(4), 41);
    assert_eq!(table.len(), 1);
    assert_eq!(table.get(U256::from_u64(4)), Some(&41));
}

#[test]
fn what_is_removed_is_gone() {
    let mut table: Table<U256, u8> = Table::new();
    table.insert(U256::from_u64(4), 40);
    table.insert(U256::from_u64(5), 50);
    table.remove(U256::from_u64(4));
    table.remove(U256::from_u64(6));
    assert_eq!(table.len(), 1);
    assert_eq!(table.get(U256::from_u64(4)), None);
    assert_eq!(table.get(U256::from_u64(5)), Some(&50));
}

#[test]
fn entries_ascend() {
    let mut table: Table<Address, u8> = Table::new();
    table.insert(Address { hi: 2, lo: 0 }, 3);
    table.insert(Address { hi: 1, lo: 7 }, 2);
    table.insert(Address { hi: 0, lo: u128::MAX }, 1);
    let values: Vec<u8> = table.entries().iter().map(|e| e.1).collect();
    assert_eq!(values, vec![1, 2, 3]);
}
