use aya_backend::migration::{Migration, SchemaStep, Table};

#[test]
fn up_creates_area_table() {
    assert_eq!(Migration.up(), SchemaStep::CreateTable(Table::Area));
}

#[test]
fn down_drops_area_table() {
    assert_eq!(Migration.down(), SchemaStep::DropTable(Table::Area));
}

#[test]
fn down_acts_on_the_table_up_created() {
    let m = Migration;
    match (m.up(), m.down()) {
        (SchemaStep::CreateTable(a), SchemaStep::DropTable(b)) => assert_eq!(a, b),
        other => panic!("unexpected steps {:?}", other),
    }
}

#[test]
fn up_and_down_differ() {
    assert_ne!(Migration.up(), Migration.down());
}
