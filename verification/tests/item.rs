use data_model::field_map::FieldMap;
use data_model::item::{Item, UNSET_ID};

fn str_map(pairs: &[(&str, &str)]) -> FieldMap<String> {
    let mut map = FieldMap::new();
    for (name, value) in pairs {
        map.set(name, value.to_string());
    }
    map
}

#[test]
fn new_item_has_unset_id_and_no_fields() {
    let item = Item::new();
    assert_eq!(item.id(), u64::MAX);
    assert_eq!(item.id(), UNSET_ID);
    assert_eq!(item.id, u64::MAX);
    assert_eq!(item.strs.len(), 0);
    assert_eq!(item.strstrs.len(), 0);
    assert_eq!(item.bools.len(), 0);
    assert_eq!(item.u64s.len(), 0);
    assert_eq!(item.ids.len(), 0);
}

#[test]
fn id_returns_the_field() {
    let mut item = Item::new();
    item.id = 42;
    assert_eq!(item.id(), 42);
    item.id = 0;
    assert_eq!(item.id(), 0);
}

#[test]
fn new_item_returns_every_default() {
    let item = Item::new();
    assert_eq!(item.safe_str("title", "none"), "none");
    assert_eq!(item.safe_str("title", ""), "");
    assert_eq!(item.safe_str("", "fallback"), "fallback");
    assert!(item.safe_bool("done", true));
    assert!(!item.safe_bool("done", false));
    assert_eq!(item.safe_u64("count", 5), 5);
    assert_eq!(item.safe_u64("count", u64::MAX), u64::MAX);
    assert_eq!(item.safe_id("owner", 9), 9);
    let def = str_map(&[("en", "hello")]);
    let got = item.safe_strstr("label", &def);
    assert!(got == def);
    assert_eq!(got.len(), 1);
    assert_eq!(got.get("en"), Some(&"hello".to_string()));
}

#[test]
fn set_str_then_safe_str_ignores_the_default() {
    let mut item = Item::new();
    item.set_str("title", "report");
    assert_eq!(item.safe_str("title", "other"), "report");
    assert_eq!(item.safe_str("title", ""), "report");
    assert_eq!(item.safe_str("title", "report"), "report");
    assert_eq!(item.strs.len(), 1);
}

#[test]
fn set_str_keeps_an_empty_value() {
    let mut item = Item::new();
    item.set_str("note", "");
    assert_eq!(item.safe_str("note", "default"), "");
    assert!(item.strs.contains_key("note"));
}

#[test]
fn set_str_replaces_in_place() {
    let mut item = Item::new();
    item.set_str("title", "first");
    item.set_str("other", "kept");
    item.set_str("title", "second");
    assert_eq!(item.safe_str("title", ""), "second");
    assert_eq!(item.safe_str("other", ""), "kept");
    assert_eq!(item.strs.len(), 2);
}

#[test]
fn names_are_told_apart() {
    let mut item = Item::new();
    item.set_str("a", "1");
    assert_eq!(item.safe_str("a", "d"), "1");
    assert_eq!(item.safe_str("b", "d"), "d");
    assert_eq!(item.safe_str("A", "d"), "d");
    assert_eq!(item.safe_str("a ", "d"), "d");
    assert_eq!(item.safe_str("", "d"), "d");
    item.set_str("b", "2");
    assert_eq!(item.safe_str("a", "d"), "1");
    assert_eq!(item.safe_str("b", "d"), "2");
    assert_eq!(item.strs.len(), 2);
}

#[test]
fn names_may_hold_any_characters() {
    let mut item = Item::new();
    item.set_str("", "empty name");
    item.set_str("größe", "groß");
    item.set_str("名前", "値");
    assert_eq!(item.safe_str("", "d"), "empty name");
    assert_eq!(item.safe_str("größe", "d"), "groß");
    assert_eq!(item.safe_str("名前", "d"), "値");
    assert_eq!(item.safe_str("grosse", "d"), "d");
    assert_eq!(item.strs.len(), 3);
}

#[test]
fn the_five_mappings_are_independent() {
    let mut item = Item::new();
    item.set_str("x", "text");
    item.set_bool("x", true);
    item.set_u64("x", 11);
    item.set_id("x", 22);
    item.set_strstr("x", &str_map(&[("k", "v")]));
    assert_eq!(item.safe_str("x", ""), "text");
    assert!(item.safe_bool("x", false));
    assert_eq!(item.u64s.get("x"), Some(&11));
    assert_eq!(item.safe_id("x", 0), 22);
    assert_eq!(item.safe_strstr("x", &FieldMap::new()).get("k"), Some(&"v".to_string()));
    assert_eq!(item.strs.len(), 1);
    assert_eq!(item.strstrs.len(), 1);
    assert_eq!(item.bools.len(), 1);
    assert_eq!(item.u64s.len(), 1);
    assert_eq!(item.ids.len(), 1);
    assert_eq!(item.id(), u64::MAX);
}

#[test]
fn set_bool_then_safe_bool() {
    let mut item = Item::new();
    item.set_bool("done", false);
    assert!(!item.safe_bool("done", true));
    item.set_bool("done", true);
    assert!(item.safe_bool("done", false));
    assert!(!item.safe_bool("open", false));
    assert_eq!(item.bools.len(), 1);
}

#[test]
fn set_id_then_safe_id() {
    let mut item = Item::new();
    item.set_id("owner", 17);
    assert_eq!(item.safe_id("owner", 0), 17);
    item.set_id("owner", u64::MAX);
    assert_eq!(item.safe_id("owner", 0), u64::MAX);
    assert_eq!(item.safe_id("parent", 3), 3);
    assert_eq!(item.ids.len(), 1);
}

#[test]
fn set_strstr_then_safe_strstr() {
    let mut item = Item::new();
    let labels = str_map(&[("en", "house"), ("de", "Haus")]);
    item.set_strstr("label", &labels);
    let def = str_map(&[("en", "default")]);
    let got = item.safe_strstr("label", &def);
    assert!(got == labels);
    assert_eq!(got.get("de"), Some(&"Haus".to_string()));
    assert_eq!(got.len(), 2);
    let missing = item.safe_strstr("hint", &def);
    assert!(missing == def);
}

#[test]
fn set_strstr_stores_a_copy() {
    let mut item = Item::new();
    let mut labels = str_map(&[("en", "house")]);
    item.set_strstr("label", &labels);
    labels.set("en", "changed".to_string());
    labels.set("fr", "maison".to_string());
    let got = item.safe_strstr("label", &FieldMap::new());
    assert_eq!(got.get("en"), Some(&"house".to_string()));
    assert_eq!(got.len(), 1);
}

#[test]
fn set_strstr_replaces_the_whole_mapping() {
    let mut item = Item::new();
    item.set_strstr("label", &str_map(&[("en", "house"), ("de", "Haus")]));
    item.set_strstr("label", &str_map(&[("fr", "maison")]));
    let got = item.safe_strstr("label", &FieldMap::new());
    assert_eq!(got.len(), 1);
    assert_eq!(got.get("fr"), Some(&"maison".to_string()));
    assert_eq!(got.get("en"), None);
    assert_eq!(item.strstrs.len(), 1);
}

#[test]
fn safe_u64_does_not_see_set_u64() {
    let mut item = Item::new();
    item.set_u64("a", 7);
    assert_eq!(item.safe_u64("a", 0), 0);
    assert_eq!(item.safe_u64("a", 99), 99);
    assert_eq!(item.u64s.get("a"), Some(&7));
    assert_eq!(item.ids.len(), 0);
    assert_eq!(item.safe_id("a", 0), 0);
}

#[test]
fn safe_u64_reads_the_identifiers() {
    let mut item = Item::new();
    item.set_id("a", 9);
    assert_eq!(item.safe_u64("a", 0), 9);
    item.set_u64("a", 7);
    assert_eq!(item.safe_u64("a", 0), 9);
    assert_eq!(item.safe_id("a", 0), 9);
    assert_eq!(item.u64s.get("a"), Some(&7));
}

#[test]
fn set_u64_replaces_in_place() {
    let mut item = Item::new();
    item.set_u64("n", 1);
    item.set_u64("n", 2);
    assert_eq!(item.u64s.get("n"), Some(&2));
    assert_eq!(item.u64s.len(), 1);
}

#[test]
fn merge_is_right_biased() {
    let mut a = Item::new();
    a.set_str("x", "1");
    let mut b = Item::new();
    b.set_str("x", "2");
    a.merge(&b);
    assert_eq!(a.safe_str("x", ""), "2");
    assert_eq!(a.strs.len(), 1);
}

#[test]
fn merge_is_additive() {
    let mut a = Item::new();
    a.set_str("x", "1");
    let mut b = Item::new();
    b.set_str("y", "2");
    a.merge(&b);
    assert_eq!(a.safe_str("x", ""), "1");
    assert_eq!(a.safe_str("y", ""), "2");
    assert_eq!(a.strs.len(), 2);
}

#[test]
fn merge_is_not_commutative() {
    let mut a = Item::new();
    a.set_str("x", "1");
    let mut b = Item::new();
    b.set_str("x", "2");
    let mut ab = a.clone();
    ab.merge(&b);
    let mut ba = b.clone();
    ba.merge(&a);
    assert_eq!(ab.safe_str("x", ""), "2");
    assert_eq!(ba.safe_str("x", ""), "1");
    assert!(ab != ba);
}

#[test]
fn merge_leaves_the_other_record_alone() {
    let mut a = Item::new();
    a.set_str("x", "1");
    a.set_bool("flag", true);
    let mut b = Item::new();
    b.id = 5;
    b.set_str("x", "2");
    b.set_u64("n", 3);
    let before = b.clone();
    a.merge(&b);
    assert!(b == before);
    assert_eq!(b.safe_str("x", ""), "2");
    assert!(!b.safe_bool("flag", false));
}

#[test]
fn merge_keeps_the_identity() {
    let mut a = Item::new();
    a.id = 1;
    let mut b = Item::new();
    b.id = 2;
    a.merge(&b);
    assert_eq!(a.id(), 1);
    let mut c = Item::new();
    c.merge(&b);
    assert_eq!(c.id(), u64::MAX);
}

#[test]
fn merge_covers_all_five_mappings() {
    let mut a = Item::new();
    a.set_str("s", "old");
    a.set_strstr("m", &str_map(&[("en", "old")]));
    a.set_bool("b", false);
    a.set_u64("n", 1);
    a.set_id("i", 10);
    a.set_id("only_a", 4);
    let mut b = Item::new();
    b.set_str("s", "new");
    b.set_strstr("m", &str_map(&[("de", "neu")]));
    b.set_bool("b", true);
    b.set_u64("n", 2);
    b.set_id("i", 20);
    b.set_bool("only_b", true);
    a.merge(&b);
    assert_eq!(a.safe_str("s", ""), "new");
    let m = a.safe_strstr("m", &FieldMap::new());
    assert_eq!(m.len(), 1);
    assert_eq!(m.get("de"), Some(&"neu".to_string()));
    assert_eq!(m.get("en"), None);
    assert!(a.safe_bool("b", false));
    assert_eq!(a.u64s.get("n"), Some(&2));
    assert_eq!(a.safe_id("i", 0), 20);
    assert_eq!(a.safe_id("only_a", 0), 4);
    assert!(a.safe_bool("only_b", false));
    assert_eq!(a.strs.len(), 1);
    assert_eq!(a.strstrs.len(), 1);
    assert_eq!(a.bools.len(), 2);
    assert_eq!(a.u64s.len(), 1);
    assert_eq!(a.ids.len(), 2);
}

#[test]
fn merge_with_an_empty_record_changes_nothing() {
    let mut a = Item::new();
    a.id = 3;
    a.set_str("x", "1");
    a.set_u64("n", 8);
    let before = a.clone();
    a.merge(&Item::new());
    assert!(a == before);
}

#[test]
fn merge_into_an_empty_record_copies_the_fields() {
    let mut b = Item::new();
    b.set_str("x", "1");
    b.set_id("i", 8);
    let mut a = Item::new();
    a.merge(&b);
    assert!(a == b);
}

#[test]
fn merge_twice_is_the_same_as_once() {
    let mut a = Item::new();
    a.set_str("x", "1");
    let mut b = Item::new();
    b.set_str("x", "2");
    b.set_str("y", "3");
    a.merge(&b);
    let once = a.clone();
    a.merge(&b);
    assert!(a == once);
}

#[test]
fn equality_is_by_content() {
    let mut a = Item::new();
    a.set_str("x", "1");
    a.set_str("y", "2");
    a.set_bool("f", true);
    let mut b = Item::new();
    b.set_bool("f", true);
    b.set_str("y", "2");
    b.set_str("x", "1");
    assert!(a == b);
    assert!(b == a);
    b.set_str("x", "other");
    assert!(a != b);
    b.set_str("x", "1");
    assert!(a == b);
    b.set_str("z", "3");
    assert!(a != b);
}

#[test]
fn equality_looks_at_every_attribute() {
    let base = Item::new();
    let mut other = Item::new();
    other.id = 1;
    assert!(base != other);
    let mut other = Item::new();
    other.set_str("x", "");
    assert!(base != other);
    let mut other = Item::new();
    other.set_strstr("x", &FieldMap::new());
    assert!(base != other);
    let mut other = Item::new();
    other.set_bool("x", false);
    assert!(base != other);
    let mut other = Item::new();
    other.set_u64("x", 0);
    assert!(base != other);
    let mut other = Item::new();
    other.set_id("x", 0);
    assert!(base != other);
    assert!(base == Item::new());
}

#[test]
fn u64s_and_ids_are_compared_separately() {
    let mut a = Item::new();
    a.set_u64("x", 1);
    let mut b = Item::new();
    b.set_id("x", 1);
    assert!(a != b);
}

#[test]
fn clone_is_equal_and_independent() {
    let mut a = Item::new();
    a.id = 12;
    a.set_str("x", "1");
    a.set_strstr("m", &str_map(&[("en", "one")]));
    a.set_bool("f", true);
    a.set_u64("n", 2);
    a.set_id("i", 3);
    let mut b = a.clone();
    assert!(a == b);
    assert_eq!(b.id(), 12);
    assert_eq!(b.safe_str("x", ""), "1");
    b.set_str("x", "changed");
    assert_eq!(a.safe_str("x", ""), "1");
    assert!(a != b);
}

#[test]
fn debug_output_names_the_type() {
    let item = Item::new();
    let text = format!("{:?}", item);
    assert!(text.contains("Item"));
}

fn require_send<T: Send>(_value: &T) {}

#[test]
fn item_can_move_between_threads() {
    let item = Item::new();
    require_send(&item);
    require_send(&item.strstrs);
}
