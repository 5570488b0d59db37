use listmatica::{FileOutcome, Listmatica, Material, Message, Notice};

const TWO_ROWS: &str = "Item,Total,Missing,Available\nOak Planks,100,0,100\nIron Ingot,5,5,0\n";

fn load(list: &mut Listmatica, text: &str) -> Vec<Notice> {
    list.update(Message::LoadLitematic(FileOutcome::Contents(String::from(text))))
}

fn snapshot(list: &Listmatica) -> Vec<(bool, String, u32)> {
    let mut rows = Vec::new();
    for material in &list.materials {
        rows.push((material.checked, material.name.clone(), material.count));
    }
    rows
}

fn row(checked: bool, name: &str, count: u32) -> (bool, String, u32) {
    (checked, String::from(name), count)
}

#[test]
fn starts_empty() {
    assert!(Listmatica::new().materials.is_empty());
    assert!(Listmatica::default().materials.is_empty());
    assert!(Listmatica::new().rows().is_empty());
}

#[test]
fn well_formed_list_gives_its_rows_in_order() {
    let mut list = Listmatica::new();
    let notices = load(&mut list, TWO_ROWS);
    assert!(notices.is_empty());
    assert_eq!(snapshot(&list), vec![row(false, "Oak Planks", 100), row(false, "Iron Ingot", 5)]);
}

#[test]
fn toggle_flips_only_that_row() {
    let mut list = Listmatica::new();
    load(&mut list, TWO_ROWS);
    let notices = list.update(Message::ToggleCheck(1));
    assert!(notices.is_empty());
    assert_eq!(snapshot(&list), vec![row(false, "Oak Planks", 100), row(true, "Iron Ingot", 5)]);
    list.update(Message::ToggleCheck(0));
    assert_eq!(snapshot(&list), vec![row(true, "Oak Planks", 100), row(true, "Iron Ingot", 5)]);
    list.update(Message::ToggleCheck(1));
    assert_eq!(snapshot(&list), vec![row(true, "Oak Planks", 100), row(false, "Iron Ingot", 5)]);
}

#[test]
fn toggle_past_the_end_changes_nothing() {
    let mut list = Listmatica::new();
    load(&mut list, TWO_ROWS);
    list.toggle_check(0);
    let before = snapshot(&list);
    assert!(list.update(Message::ToggleCheck(2)).is_empty());
    assert_eq!(snapshot(&list), before);
    list.toggle_check(usize::MAX);
    assert_eq!(snapshot(&list), before);
}

#[test]
fn toggle_on_an_empty_list_changes_nothing() {
    let mut list = Listmatica::new();
    list.toggle_check(0);
    assert!(list.materials.is_empty());
}

#[test]
fn toggle_works_on_rows_built_by_hand() {
    let mut list = Listmatica {
        materials: vec![
            Material { checked: true, name: String::from("Glass"), count: 7 },
            Material { checked: false, name: String::from("Sand"), count: 2000 },
        ],
    };
    list.toggle_check(0);
    assert_eq!(snapshot(&list), vec![row(false, "Glass", 7), row(false, "Sand", 2000)]);
}

#[test]
fn row_with_a_total_that_is_no_number_is_left_out() {
    let mut list = Listmatica::new();
    let notices = load(
        &mut list,
        "Item,Total,Missing,Available\nOak Planks,100,0,100\nDirt,many,0,0\nIron Ingot,5,5,0\n",
    );
    assert_eq!(notices, vec![Notice::EntryFailed]);
    assert_eq!(snapshot(&list), vec![row(false, "Oak Planks", 100), row(false, "Iron Ingot", 5)]);

    let mut all_valid = Listmatica::new();
    load(&mut all_valid, TWO_ROWS);
    assert_eq!(snapshot(&list), snapshot(&all_valid));
}

#[test]
fn each_bad_row_gives_one_notice() {
    let mut list = Listmatica::new();
    let notices = load(
        &mut list,
        "Item,Total,Missing,Available\nA,x,0,0\nB,1,0,0\nC,2,y,0\nD,3,0,z\nE,4,0,0\n",
    );
    assert_eq!(notices, vec![Notice::EntryFailed, Notice::EntryFailed, Notice::EntryFailed]);
    assert_eq!(snapshot(&list), vec![row(false, "B", 1), row(false, "E", 4)]);
}

#[test]
fn cancelled_load_keeps_the_list() {
    let mut list = Listmatica::new();
    load(&mut list, TWO_ROWS);
    list.toggle_check(1);
    let before = snapshot(&list);
    let notices = list.update(Message::LoadLitematic(FileOutcome::Cancelled));
    assert_eq!(notices, vec![Notice::NoFileSelected]);
    assert_eq!(snapshot(&list), before);
    assert_eq!(before, vec![row(false, "Oak Planks", 100), row(true, "Iron Ingot", 5)]);
}

#[test]
fn unreadable_file_keeps_the_list() {
    let mut list = Listmatica::new();
    load(&mut list, TWO_ROWS);
    list.toggle_check(0);
    let before = snapshot(&list);
    let notices = list.update(Message::LoadLitematic(FileOutcome::Unreadable));
    assert_eq!(notices, vec![Notice::ReadFailed]);
    assert_eq!(snapshot(&list), before);
    assert_eq!(before, vec![row(true, "Oak Planks", 100), row(false, "Iron Ingot", 5)]);
}

#[test]
fn second_load_replaces_the_first() {
    let mut list = Listmatica::new();
    load(&mut list, TWO_ROWS);
    list.toggle_check(0);
    list.toggle_check(1);
    let notices = load(&mut list, "Item,Total,Missing,Available\nGlass,12,0,12\n");
    assert!(notices.is_empty());
    assert_eq!(snapshot(&list), vec![row(false, "Glass", 12)]);
}

#[test]
fn second_load_of_the_same_list_unticks_every_row() {
    let mut list = Listmatica::new();
    load(&mut list, TWO_ROWS);
    list.toggle_check(0);
    load(&mut list, TWO_ROWS);
    assert_eq!(snapshot(&list), vec![row(false, "Oak Planks", 100), row(false, "Iron Ingot", 5)]);
}

#[test]
fn load_where_every_row_fails_empties_the_list() {
    let mut list = Listmatica::new();
    load(&mut list, TWO_ROWS);
    let notices = load(&mut list, "Item,Total,Missing,Available\nA,b,c,d\nE,f,g,h\n");
    assert_eq!(notices, vec![Notice::EntryFailed, Notice::EntryFailed]);
    assert!(list.materials.is_empty());
}

#[test]
fn empty_text_empties_the_list() {
    let mut list = Listmatica::new();
    load(&mut list, TWO_ROWS);
    let notices = load(&mut list, "");
    assert!(notices.is_empty());
    assert!(list.materials.is_empty());
}

#[test]
fn header_alone_gives_no_rows() {
    let mut list = Listmatica::new();
    load(&mut list, TWO_ROWS);
    let notices = load(&mut list, "Item,Total,Missing,Available\n");
    assert!(notices.is_empty());
    assert!(list.materials.is_empty());
}

#[test]
fn load_text_counts_the_failures() {
    let mut list = Listmatica::new();
    assert_eq!(list.load_text(TWO_ROWS), 0);
    assert_eq!(list.materials.len(), 2);
    assert_eq!(list.load_text("Item,Total,Missing,Available\nA,1,1,1\nB,,1,1\nC\n"), 2);
    assert_eq!(snapshot(&list), vec![row(false, "A", 1)]);
}

#[test]
fn shown_rows_carry_position_flag_name_and_quantity() {
    let mut list = Listmatica::new();
    load(
        &mut list,
        "Item,Total,Missing,Available\nOak Planks,100,0,100\nIron Ingot,5,5,0\nStone,1800,0,0\n",
    );
    list.toggle_check(1);
    let rows = list.rows();
    assert_eq!(rows.len(), 3);
    assert_eq!(rows[0].index, 0);
    assert_eq!(rows[0].checked, false);
    assert_eq!(rows[0].name, "Oak Planks");
    assert_eq!(rows[0].quantity, "1 stacks, 36 items");
    assert_eq!(rows[1].index, 1);
    assert_eq!(rows[1].checked, true);
    assert_eq!(rows[1].name, "Iron Ingot");
    assert_eq!(rows[1].quantity, "5 items");
    assert_eq!(rows[2].index, 2);
    assert_eq!(rows[2].checked, false);
    assert_eq!(rows[2].name, "Stone");
    assert_eq!(rows[2].quantity, "1 boxes, 1 stacks, 8 items");
    assert_eq!(list.materials.len(), 3);
}

#[test]
fn notices_read_as_the_message_boxes_do() {
    assert_eq!(Notice::NoFileSelected.title(), "Error");
    assert_eq!(Notice::ReadFailed.title(), "Error");
    assert_eq!(Notice::EntryFailed.title(), "Error");
    assert_eq!(Notice::NoFileSelected.description(), "Please select a file");
    assert_eq!(Notice::ReadFailed.description(), "Failed to read file");
    assert_eq!(Notice::EntryFailed.description(), "Failed parse an entry");
}
