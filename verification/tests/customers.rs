use customer_auth::customer::{
    customer_item, decode_customer, delete_customer, delete_customer_reply, get_customer,
    get_customer_reply, register_customer, register_customer_reply, update_customer,
    update_customer_reply, Address, Customer, CustomerRead, CustomerWrite,
};
use customer_auth::store::{AttrValue, Field, Item, StoreError};

fn sample(id: &str, age: u8, active: bool) -> Customer {
    Customer {
        id: id.to_string(),
        name: "Ada".to_string(),
        age,
        active,
        address: Address {
            street: "1 Main St".to_string(),
            city: "Pune".to_string(),
            state: "MH".to_string(),
            zip: "411001".to_string(),
        },
    }
}

fn same(a: &Customer, b: &Customer) -> bool {
    a.id == b.id
        && a.name == b.name
        && a.age == b.age
        && a.active == b.active
        && a.address.street == b.address.street
        && a.address.city == b.address.city
        && a.address.state == b.address.state
        && a.address.zip == b.address.zip
}

fn s(f: &Field) -> (&str, &str) {
    match &f.value {
        AttrValue::S(v) => (f.name.as_str(), v.as_str()),
        _ => panic!("not a string attribute"),
    }
}

#[test]
fn item_layout() {
    let item = customer_item(&sample("c1", 42, true));
    assert_eq!(item.fields.len(), 5);
    assert_eq!(s(&item.fields[0]), ("customer_key", "c1"));
    assert_eq!(s(&item.fields[1]), ("name", "Ada"));
    assert_eq!(item.fields[2].name, "age");
    assert!(matches!(&item.fields[2].value, AttrValue::N(n) if n == "42"));
    assert_eq!(item.fields[3].name, "active");
    assert!(matches!(item.fields[3].value, AttrValue::Bool(true)));
    assert_eq!(item.fields[4].name, "address");
    match &item.fields[4].value {
        AttrValue::M(m) => {
            assert_eq!(m.len(), 4);
            assert_eq!(s(&m[0]), ("street", "1 Main St"));
            assert_eq!(s(&m[1]), ("city", "Pune"));
            assert_eq!(s(&m[2]), ("state", "MH"));
            assert_eq!(s(&m[3]), ("zip", "411001"));
        }
        _ => panic!("address is not a map"),
    }
}

#[test]
fn written_customer_reads_back() {
    for (age, active) in [(0u8, false), (1, true), (99, false), (255, true)] {
        let c = sample("c-7", age, active);
        let back = decode_customer("c-7", &customer_item(&c)).expect("readable");
        assert!(same(&c, &back));
    }
}

#[test]
fn missing_id_is_refused_only_when_everything_is_empty() {
    let mut c = sample("", 0, false);
    c.name = String::new();
    match register_customer(&c) {
        CustomerWrite::Refused(r) => assert_eq!((r.status, r.body.as_str()), (400, "Id is required")),
        CustomerWrite::Store(_) => panic!("should be refused"),
    }
    match update_customer(&c) {
        CustomerWrite::Refused(r) => assert_eq!(r.status, 400),
        CustomerWrite::Store(_) => panic!("should be refused"),
    }
    // an empty id alone is not refused
    let c = sample("", 0, false);
    match register_customer(&c) {
        CustomerWrite::Store(p) => {
            assert_eq!(p.table, "Customer");
            assert_eq!(p.item.fields.len(), 5);
        }
        CustomerWrite::Refused(_) => panic!("should be stored"),
    }
}

#[test]
fn write_replies() {
    let r = register_customer_reply(&Ok(()));
    assert_eq!((r.status, r.body.as_str()), (200, "Customer registered successfully"));
    let r = register_customer_reply(&Err(StoreError));
    assert_eq!((r.status, r.body.as_str()), (500, "Something went wrong"));
    let r = update_customer_reply(&Ok(()));
    assert_eq!((r.status, r.body.as_str()), (200, "Customer updated successfully"));
    let r = update_customer_reply(&Err(StoreError));
    assert_eq!((r.status, r.body.as_str()), (500, "Something went wrong"));
    let r = delete_customer_reply(&Ok(()));
    assert_eq!((r.status, r.body.as_str()), (200, "Customer deleted successfully"));
    let r = delete_customer_reply(&Err(StoreError));
    assert_eq!((r.status, r.body.as_str()), (500, "Something went wrong"));
}

#[test]
fn key_requests() {
    for q in [get_customer("abc"), delete_customer("abc")] {
        assert_eq!(q.table, "Customer");
        assert_eq!(q.key.fields.len(), 1);
        assert_eq!(s(&q.key.fields[0]), ("customer_key", "abc"));
    }
}

#[test]
fn read_replies() {
    match get_customer_reply("x", &Err(StoreError)) {
        CustomerRead::Text(r) => assert_eq!((r.status, r.body.as_str()), (500, "Something went wrong")),
        _ => panic!(),
    }
    match get_customer_reply("x", &Ok(None)) {
        CustomerRead::Text(r) => assert_eq!((r.status, r.body.as_str()), (404, "Customer not found")),
        _ => panic!(),
    }
    let c = sample("x", 30, true);
    match get_customer_reply("x", &Ok(Some(customer_item(&c)))) {
        CustomerRead::Found(back) => assert!(same(&c, &back)),
        _ => panic!(),
    }
}

#[test]
fn unreadable_items() {
    // an age that is not a u8 numeral
    let mut item = customer_item(&sample("x", 30, true));
    item.fields[2].value = AttrValue::N("300".to_string());
    assert!(decode_customer("x", &item).is_none());
    // a name stored as a number
    let mut item = customer_item(&sample("x", 30, true));
    item.fields[1].value = AttrValue::N("5".to_string());
    assert!(decode_customer("x", &item).is_none());
    // no address
    let mut item = customer_item(&sample("x", 30, true));
    item.fields.pop();
    assert!(decode_customer("x", &item).is_none());
    // empty item
    assert!(decode_customer("x", &Item { fields: Vec::new() }).is_none());
}

#[test]
fn read_uses_the_requested_id_and_first_attribute() {
    let mut item = customer_item(&sample("stored", 5, false));
    item.fields.push(Field { name: "name".to_string(), value: AttrValue::S("Second".to_string()) });
    let back = decode_customer("asked", &item).unwrap();
    assert_eq!(back.id, "asked");
    assert_eq!(back.name, "Ada");
    assert_eq!(back.age, 5);
}

#[test]
fn read_back_in_any_attribute_order() {
    let c = sample("c-9", 77, true);
    let mut item = customer_item(&c);
    item.fields.reverse();
    for f in item.fields.iter_mut() {
        if let AttrValue::M(m) = &mut f.value {
            m.rotate_left(1);
        }
    }
    let back = decode_customer("c-9", &item).expect("readable in any order");
    assert!(same(&c, &back));
}
