use vizia_state::lens::{Index, Lens, Step, Then, Whole};
use vizia_state::registry::{Keyed, ModelData, ModelRegistry};
use vizia_state::store::{update_pass, BasicStore, Store};
use vizia_state::table::{ItemPtr, Table};
use vizia_state::store_table::StoreTable;
use vizia_state::uuid::{StoreId, UuidGenerator};
use vizia_state::{Entity, Hierarchy};

struct Board {
    squares: Vec<u32>,
}

impl ModelData for Board {
    fn type_key_spec(&self) -> u64 {
        40
    }

    fn type_key(&self) -> u64 {
        40
    }
}

#[derive(Clone, Copy)]
struct Squares;

impl Lens for Squares {
    type Source = Board;
    type Target = Vec<u32>;

    fn source_key_spec(&self) -> u64 {
        40
    }

    fn view_spec<'a>(&self, source: &'a Board) -> Option<&'a Vec<u32>> {
        Some(&source.squares)
    }

    fn source_key(&self) -> u64 {
        40
    }

    fn view<R, F: FnOnce(Option<&Vec<u32>>) -> R>(&self, source: &Board, f: F) -> R {
        f(Some(&source.squares))
    }
}

fn node(index: u64) -> Entity {
    Entity::from_parts(index, 0)
}

fn two_level_tree() -> Hierarchy {
    let mut tree = Hierarchy::new();
    assert!(tree.add(node(1), node(0)).is_ok());
    assert!(tree.add(node(2), node(1)).is_ok());
    tree
}

#[test]
fn index_step_views_by_reference() {
    let list = vec![7u32, 8, 9];
    assert_eq!(Index::new(0).step(&list, |item| item.copied()), Some(7));
    assert_eq!(Index::new(2).step(&list, |item| item.copied()), Some(9));
    assert_eq!(Index::new(3).step(&list, |item| item.copied()), None);
    let seen = Index::new(1).step(&list, |item| item.map(|r| std::ptr::eq(r, &list[1])));
    assert_eq!(seen, Some(true));
}

#[test]
fn chained_lens_follows_both_parts() {
    let board = Board { squares: vec![1, 2, 3, 4] };
    let third = Then { first: Squares, second: Index::new(2) };
    assert_eq!(third.source_key(), 40);
    assert_eq!(third.view(&board, |item| item.copied()), Some(3));
    let beyond = Then { first: Squares, second: Index::new(4) };
    assert_eq!(beyond.view(&board, |item| item.copied()), None);
    let same_place = third.view(&board, |item| item.map(|r| std::ptr::eq(r, &board.squares[2])));
    assert_eq!(same_place, Some(true));
}

#[test]
fn chained_lens_binds_a_store() {
    let tree = two_level_tree();
    let mut registry: ModelRegistry<Board> = ModelRegistry::new();
    registry.insert(node(0), Board { squares: vec![5, 6] });
    let mut store = BasicStore::new(node(2), Then { first: Squares, second: Index::new(1) });
    assert!(store.update(&registry, &tree, node(2)));
    assert_eq!(store.cache, Some(6));
    registry.insert(node(0), Board { squares: vec![9, 6] });
    assert!(!store.update(&registry, &tree, node(2)));
    registry.insert(node(0), Board { squares: vec![9] });
    assert!(store.update(&registry, &tree, node(2)));
    assert_eq!(store.cache, None);
}

#[test]
fn update_pass_marks_the_observers_of_changed_stores() {
    let tree = two_level_tree();
    let mut registry: ModelRegistry<Board> = ModelRegistry::new();
    registry.insert(node(0), Board { squares: vec![5, 6] });
    let mut first = BasicStore::new(node(1), Then { first: Squares, second: Index::new(0) });
    first.add_observer(node(10));
    first.add_observer(node(11));
    let mut second = BasicStore::new(node(2), Then { first: Squares, second: Index::new(1) });
    second.add_observer(node(11));
    let mut stores = vec![first, second];

    let mut dirty: Vec<Entity> = Vec::new();
    assert_eq!(update_pass(&mut stores, &registry, &tree, &mut dirty), vec![true, true]);
    assert_eq!(dirty, vec![node(10), node(11), node(11)]);

    registry.insert(node(0), Board { squares: vec![5, 60] });
    let mut dirty: Vec<Entity> = Vec::new();
    assert_eq!(update_pass(&mut stores, &registry, &tree, &mut dirty), vec![false, true]);
    assert_eq!(dirty, vec![node(11)]);
    assert_eq!(stores[0].cache, Some(5));
    assert_eq!(stores[1].cache, Some(60));

    let mut dirty: Vec<Entity> = Vec::new();
    assert_eq!(update_pass(&mut stores, &registry, &tree, &mut dirty), vec![false, false]);
    assert!(dirty.is_empty());
}

#[test]
fn table_cells_run_row_by_row() {
    let table = Table::new(2, Squares);
    assert!(table.is_square(4));
    assert!(table.is_square(5));
    assert!(!table.is_square(3));
    assert!(!table.is_square(6));
    assert_eq!(
        table.cells(4),
        vec![
            ItemPtr { index: 0, row: 0, col: 0 },
            ItemPtr { index: 1, row: 0, col: 1 },
            ItemPtr { index: 2, row: 1, col: 0 },
            ItemPtr { index: 3, row: 1, col: 1 },
        ]
    );
    let wide = Table::new(3, Squares);
    let cells = wide.cells(9);
    assert_eq!(cells.len(), 9);
    assert_eq!(cells[5], ItemPtr { index: 5, row: 1, col: 2 });
    assert_eq!(cells[8], ItemPtr { index: 8, row: 2, col: 2 });
    assert!(!Table::new(0, Squares).is_square(0));
}

#[test]
fn table_body_lays_out_the_closest_board() {
    let tree = two_level_tree();
    let mut registry: ModelRegistry<Board> = ModelRegistry::new();
    let table = Table::new(2, Squares);
    assert_eq!(table.item_count(&registry, &tree, node(2)), None);
    assert!(table.body(&registry, &tree, node(2)).is_empty());

    registry.insert(node(0), Board { squares: vec![0; 9] });
    registry.insert(node(1), Board { squares: vec![1, 2, 3, 4] });
    assert_eq!(table.item_count(&registry, &tree, node(2)), Some(4));
    assert_eq!(table.item_count(&registry, &tree, node(0)), Some(9));
    let cells = table.body(&registry, &tree, node(2));
    assert_eq!(cells.len(), 4);
    assert_eq!(cells[2], ItemPtr { index: 2, row: 1, col: 0 });
}

#[test]
fn unique_store_ids_differ() {
    let mut generator = UuidGenerator::new();
    let first = StoreId::unique(&mut generator);
    let second = StoreId::unique(&mut generator);
    assert_eq!(first, StoreId::UUID(0));
    assert_eq!(second, StoreId::UUID(1));
    assert_ne!(first, second);
    assert_ne!(StoreId::Type(0), StoreId::UUID(0));
}

#[test]
fn store_table_keeps_one_store_per_identity() {
    let mut generator = UuidGenerator::new();
    let mut table = StoreTable::new();
    let canonical = StoreId::Type(40);
    let adhoc = StoreId::unique(&mut generator);
    table.insert(canonical, BasicStore::new(node(1), Then { first: Squares, second: Index::new(0) }));
    table.insert(adhoc, BasicStore::new(node(2), Then { first: Squares, second: Index::new(1) }));
    assert_eq!(table.len(), 2);
    assert_eq!(table.position(canonical), Some(0));
    assert_eq!(table.position(adhoc), Some(1));
    assert_eq!(table.position(StoreId::UUID(7)), None);
    assert_eq!(table.get(adhoc).map(|s| s.entity()), Some(node(2)));

    // The same identity again replaces the store in its place.
    table.insert(canonical, BasicStore::new(node(0), Then { first: Squares, second: Index::new(0) }));
    assert_eq!(table.len(), 2);
    assert_eq!(table.get(canonical).map(|s| s.entity()), Some(node(0)));

    let removed = table.remove(canonical);
    assert_eq!(removed.map(|s| s.entity()), Some(node(0)));
    assert!(table.remove(canonical).is_none());
    assert_eq!(table.len(), 1);
    assert_eq!(table.position(adhoc), Some(0));
    assert!(table.get(canonical).is_none());
}

#[test]
fn store_table_update_pass() {
    let tree = two_level_tree();
    let mut registry: ModelRegistry<Board> = ModelRegistry::new();
    registry.insert(node(1), Board { squares: vec![3, 4] });
    let mut table = StoreTable::new();
    let mut bound = BasicStore::new(node(2), Then { first: Squares, second: Index::new(0) });
    bound.add_observer(node(20));
    let mut unbound = BasicStore::new(node(0), Then { first: Squares, second: Index::new(0) });
    unbound.add_observer(node(21));
    table.insert(StoreId::UUID(0), bound);
    table.insert(StoreId::UUID(1), unbound);

    let mut dirty: Vec<Entity> = Vec::new();
    assert_eq!(table.update(&registry, &tree, &mut dirty), vec![true, false]);
    assert_eq!(dirty, vec![node(20)]);
    let mut dirty: Vec<Entity> = Vec::new();
    assert_eq!(table.update(&registry, &tree, &mut dirty), vec![false, false]);
    assert!(dirty.is_empty());
}

#[test]
fn removed_model_reports_no_change() {
    let tree = two_level_tree();
    let mut registry: ModelRegistry<Board> = ModelRegistry::new();
    registry.insert(node(1), Board { squares: vec![3, 4] });
    let mut store = BasicStore::new(node(2), Then { first: Squares, second: Index::new(1) });
    assert!(store.update(&registry, &tree, node(2)));
    let removed = registry.remove_model(node(1), 40);
    assert_eq!(removed.map(|board| board.squares), Some(vec![3, 4]));
    assert!(registry.remove_model(node(1), 40).is_none());
    assert!(registry.remove_model(node(9), 40).is_none());
    assert!(registry.get(node(1)).is_some());
    assert!(!store.update(&registry, &tree, node(2)));
    assert_eq!(store.cache, Some(4));
}

#[test]
fn keyed_models_bind_through_the_whole_lens() {
    let tree = two_level_tree();
    let mut registry: ModelRegistry<Keyed<Vec<i64>>> = ModelRegistry::new();
    registry.insert(node(0), Keyed::new(3, vec![10, 20]));
    registry.insert(node(0), Keyed::new(4, vec![-1]));
    let lens = Then { first: Whole::new(3), second: Index::new(1) };
    assert_eq!(lens.source_key(), 3);
    let mut store = BasicStore::new(node(2), lens);
    assert!(store.update(&registry, &tree, node(2)));
    assert_eq!(store.cache, Some(20));
    let mut other = BasicStore::new(node(2), Then { first: Whole::new(4), second: Index::new(0) });
    assert!(other.update(&registry, &tree, node(2)));
    assert_eq!(other.cache, Some(-1));
    let mut unbound =
        BasicStore::new(node(2), Then { first: Whole::<Vec<i64>>::new(5), second: Index::new(0) });
    assert!(!unbound.update(&registry, &tree, node(2)));
}
