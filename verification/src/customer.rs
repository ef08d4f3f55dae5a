//! Customer records: validation, their item layout in the `Customer` table,
//! reading them back, and the replies of the customer endpoints.

use vstd::prelude::*;
use crate::reply::{is_reply, reply, Reply, BAD_REQUEST, INTERNAL_SERVER_ERROR, NOT_FOUND, OK};
use crate::store::{
    bool_attr, get_bool, get_map, get_number, get_string, is_number_field, is_string_field,
    map_attr, number_attr, string_attr, string_field, string_key, number_field, AttrValue, Field,
    Item, KeyRequest, PutItemRequest, StoreError, find_field, distinct_names, lemma_find_distinct,
};
use crate::text::{decimal, decimal_string, law_parse_u8_of_decimal, parse_u8, parse_u8_spec};

verus! {

/// A postal address.
pub struct Address {
    pub street: String,
    pub city: String,
    pub state: String,
    pub zip: String,
}

/// A customer record.
pub struct Customer {
    pub id: String,
    pub name: String,
    pub age: u8,
    pub active: bool,
    pub address: Address,
}

pub struct AddressView {
    pub street: Seq<char>,
    pub city: Seq<char>,
    pub state: Seq<char>,
    pub zip: Seq<char>,
}

pub struct CustomerView {
    pub id: Seq<char>,
    pub name: Seq<char>,
    pub age: u8,
    pub active: bool,
    pub address: AddressView,
}

impl View for Address {
    type V = AddressView;

    open spec fn view(&self) -> AddressView {
        AddressView {
            street: self.street@,
            city: self.city@,
            state: self.state@,
            zip: self.zip@,
        }
    }
}

impl View for Customer {
    type V = CustomerView;

    open spec fn view(&self) -> CustomerView {
        CustomerView {
            id: self.id@,
            name: self.name@,
            age: self.age,
            active: self.active,
            address: self.address@,
        }
    }
}

/// The table that holds customers.
pub open spec fn customer_table() -> Seq<char> {
    "Customer"@
}

/// A write is refused only when id and name are both empty, age is 0 and the
/// customer is inactive.
pub open spec fn lacks_id(c: CustomerView) -> bool {
    c.id.len() == 0 && c.name.len() == 0 && c.age == 0 && !c.active
}

/// The attributes of the stored address, in order.
pub open spec fn is_address_fields(fs: Seq<Field>, a: AddressView) -> bool {
    &&& fs.len() == 4
    &&& is_string_field(fs[0], "street"@, a.street)
    &&& is_string_field(fs[1], "city"@, a.city)
    &&& is_string_field(fs[2], "state"@, a.state)
    &&& is_string_field(fs[3], "zip"@, a.zip)
}

/// The attributes of the item stored for `c`, in order: key, name, age as a
/// decimal number, the active flag, and the address as a map.
pub open spec fn is_customer_fields(fs: Seq<Field>, c: CustomerView) -> bool {
    &&& fs.len() == 5
    &&& is_string_field(fs[0], "customer_key"@, c.id)
    &&& is_string_field(fs[1], "name"@, c.name)
    &&& is_number_field(fs[2], "age"@, decimal(c.age as nat))
    &&& fs[3].name@ == "active"@ && fs[3].value == AttrValue::Bool(c.active)
    &&& fs[4].name@ == "address"@ && (fs[4].value matches AttrValue::M(m) && is_address_fields(
        m@,
        c.address,
    ))
}

/// `f` is the boolean attribute `name` holding `b`.
pub open spec fn is_bool_field(f: Field, name: Seq<char>, b: bool) -> bool {
    f.name@ == name && f.value == AttrValue::Bool(b)
}

/// `fs` holds, in any order and under distinct names, the attributes of a
/// stored address.
pub open spec fn address_attrs(fs: Seq<Field>, a: AddressView) -> bool {
    &&& distinct_names(fs)
    &&& exists|i: int| 0 <= i < fs.len() && #[trigger] is_string_field(fs[i], "street"@, a.street)
    &&& exists|i: int| 0 <= i < fs.len() && #[trigger] is_string_field(fs[i], "city"@, a.city)
    &&& exists|i: int| 0 <= i < fs.len() && #[trigger] is_string_field(fs[i], "state"@, a.state)
    &&& exists|i: int| 0 <= i < fs.len() && #[trigger] is_string_field(fs[i], "zip"@, a.zip)
}

/// `f` is the map attribute `address` holding the attributes of `a`.
pub open spec fn is_address_field(f: Field, a: AddressView) -> bool {
    f.name@ == "address"@ && (f.value matches AttrValue::M(m) && address_attrs(m@, a))
}

/// `fs` holds, in any order and under distinct names, the attributes of the
/// item stored for `c` (as the store may hand them back).
pub open spec fn customer_attrs(fs: Seq<Field>, c: CustomerView) -> bool {
    &&& distinct_names(fs)
    &&& exists|i: int| 0 <= i < fs.len() && #[trigger] is_string_field(fs[i], "customer_key"@, c.id)
    &&& exists|i: int| 0 <= i < fs.len() && #[trigger] is_string_field(fs[i], "name"@, c.name)
    &&& exists|i: int|
        0 <= i < fs.len() && #[trigger] is_number_field(fs[i], "age"@, decimal(c.age as nat))
    &&& exists|i: int| 0 <= i < fs.len() && #[trigger] is_bool_field(fs[i], "active"@, c.active)
    &&& exists|i: int| 0 <= i < fs.len() && #[trigger] is_address_field(fs[i], c.address)
}

/// The customer read back from a stored item under key `id`: every attribute
/// must be present with its type, and the age must be a `u8` numeral.
pub open spec fn decode_customer_spec(id: Seq<char>, fs: Seq<Field>) -> Option<CustomerView> {
    match (
        string_attr(fs, "name"@),
        number_attr(fs, "age"@),
        bool_attr(fs, "active"@),
        map_attr(fs, "address"@),
    ) {
        (Some(name), Some(age), Some(active), Some(addr)) => {
            match (
                string_attr(addr, "street"@),
                string_attr(addr, "city"@),
                string_attr(addr, "state"@),
                string_attr(addr, "zip"@),
                parse_u8_spec(age),
            ) {
                (Some(street), Some(city), Some(state), Some(zip), Some(age)) => Some(
                    CustomerView {
                        id,
                        name,
                        age,
                        active,
                        address: AddressView { street, city, state, zip },
                    },
                ),
                _ => None,
            }
        },
        _ => None,
    }
}

/// Whether a write of `c` is refused for a missing id.
pub fn lacks_id_fields(c: &Customer) -> (r: bool)
    ensures
        r == lacks_id(c@),
        r == (c.id@.len() == 0 && c.name@.len() == 0 && c.age == 0 && !c.active),
{
    c.id.as_str().is_empty() && c.name.as_str().is_empty() && c.age == 0 && !c.active
}

/// The item stored for `c`.
pub fn customer_item(c: &Customer) -> (item: Item)
    ensures
        is_customer_fields(item.fields@, c@),
        customer_attrs(item.fields@, c@),
{
    let mut address: Vec<Field> = Vec::new();
    address.push(string_field("street", c.address.street.clone()));
    address.push(string_field("city", c.address.city.clone()));
    address.push(string_field("state", c.address.state.clone()));
    address.push(string_field("zip", c.address.zip.clone()));
    let mut fields: Vec<Field> = Vec::new();
    fields.push(string_field("customer_key", c.id.clone()));
    fields.push(string_field("name", c.name.clone()));
    fields.push(number_field("age", decimal_string(c.age as u64)));
    fields.push(Field { name: String::from_str("active"), value: AttrValue::Bool(c.active) });
    fields.push(Field { name: String::from_str("address"), value: AttrValue::M(address) });
    proof {
        lemma_written_customer_attrs(fields@, c@);
    }
    Item { fields }
}

/// The key of customer `id`.
pub fn customer_key(id: &str) -> (k: Item)
    ensures
        k.fields@.len() == 1,
        is_string_field(k.fields@[0], "customer_key"@, id@),
{
    string_key("customer_key", String::from_str(id))
}

/// Reads a stored item back as the customer with key `id`; `None` where an
/// attribute is missing or of another type, or the age is not a `u8` numeral.
pub fn decode_customer(id: &str, item: &Item) -> (r: Option<Customer>)
    ensures
        r is None <==> decode_customer_spec(id@, item.fields@) is None,
        r matches Some(c) ==> decode_customer_spec(id@, item.fields@) == Some(c@),
{
    let fs = &item.fields;
    let name = get_string(fs, "name");
    let age = get_number(fs, "age");
    let active = get_bool(fs, "active");
    let addr = get_map(fs, "address");
    match (name, age, active, addr) {
        (Some(name), Some(age), Some(active), Some(addr)) => {
            let street = get_string(addr, "street");
            let city = get_string(addr, "city");
            let state = get_string(addr, "state");
            let zip = get_string(addr, "zip");
            let age = parse_u8(age.as_str());
            match (street, city, state, zip, age) {
                (Some(street), Some(city), Some(state), Some(zip), Some(age)) => {
                    Some(
                        Customer {
                            id: String::from_str(id),
                            name: name.clone(),
                            age,
                            active,
                            address: Address {
                                street: street.clone(),
                                city: city.clone(),
                                state: state.clone(),
                                zip: zip.clone(),
                            },
                        },
                    )
                },
                _ => None,
            }
        },
        _ => None,
    }
}

proof fn lemma_string_attr_at(fs: Seq<Field>, i: int, name: Seq<char>, text: Seq<char>)
    requires
        distinct_names(fs),
        0 <= i < fs.len(),
        is_string_field(fs[i], name, text),
    ensures
        string_attr(fs, name) == Some(text),
{
    lemma_find_distinct(fs, i);
}

proof fn lemma_address_attrs_decode(fs: Seq<Field>, a: AddressView)
    requires
        address_attrs(fs, a),
    ensures
        string_attr(fs, "street"@) == Some(a.street),
        string_attr(fs, "city"@) == Some(a.city),
        string_attr(fs, "state"@) == Some(a.state),
        string_attr(fs, "zip"@) == Some(a.zip),
{
    let i = choose|i: int| 0 <= i < fs.len() && #[trigger] is_string_field(fs[i], "street"@, a.street);
    lemma_string_attr_at(fs, i, "street"@, a.street);
    let i = choose|i: int| 0 <= i < fs.len() && #[trigger] is_string_field(fs[i], "city"@, a.city);
    lemma_string_attr_at(fs, i, "city"@, a.city);
    let i = choose|i: int| 0 <= i < fs.len() && #[trigger] is_string_field(fs[i], "state"@, a.state);
    lemma_string_attr_at(fs, i, "state"@, a.state);
    let i = choose|i: int| 0 <= i < fs.len() && #[trigger] is_string_field(fs[i], "zip"@, a.zip);
    lemma_string_attr_at(fs, i, "zip"@, a.zip);
}

/// Reading back, under a customer's id, an item that holds the customer's
/// attributes in any order gives the same customer.
pub proof fn law_customer_attrs_roundtrip(fs: Seq<Field>, c: CustomerView)
    requires
        customer_attrs(fs, c),
    ensures
        decode_customer_spec(c.id, fs) == Some(c),
{
    let i = choose|i: int| 0 <= i < fs.len() && #[trigger] is_string_field(fs[i], "name"@, c.name);
    lemma_string_attr_at(fs, i, "name"@, c.name);
    let i = choose|i: int|
        0 <= i < fs.len() && #[trigger] is_number_field(fs[i], "age"@, decimal(c.age as nat));
    lemma_find_distinct(fs, i);
    let i = choose|i: int| 0 <= i < fs.len() && #[trigger] is_bool_field(fs[i], "active"@, c.active);
    lemma_find_distinct(fs, i);
    let i = choose|i: int| 0 <= i < fs.len() && #[trigger] is_address_field(fs[i], c.address);
    lemma_find_distinct(fs, i);
    let m = fs[i].value->M_0;
    lemma_address_attrs_decode(m@, c.address);
    law_parse_u8_of_decimal(c.age);
}

/// The item written for a customer holds its attributes under distinct names.
pub proof fn lemma_written_customer_attrs(fs: Seq<Field>, c: CustomerView)
    requires
        is_customer_fields(fs, c),
    ensures
        customer_attrs(fs, c),
{
    reveal_strlit("customer_key");
    reveal_strlit("name");
    reveal_strlit("age");
    reveal_strlit("active");
    reveal_strlit("address");
    reveal_strlit("street");
    reveal_strlit("city");
    reveal_strlit("state");
    reveal_strlit("zip");
    assert("customer_key"@.len() == 12 && "name"@.len() == 4 && "age"@.len() == 3);
    assert("active"@.len() == 6 && "address"@.len() == 7);
    assert("street"@.len() == 6 && "city"@.len() == 4 && "state"@.len() == 5 && "zip"@.len() == 3);
    let m = fs[4].value->M_0@;
    assert(is_string_field(m[0], "street"@, c.address.street));
    assert(is_string_field(m[1], "city"@, c.address.city));
    assert(is_string_field(m[2], "state"@, c.address.state));
    assert(is_string_field(m[3], "zip"@, c.address.zip));
    assert(address_attrs(m, c.address));
    assert(is_string_field(fs[0], "customer_key"@, c.id));
    assert(is_string_field(fs[1], "name"@, c.name));
    assert(is_number_field(fs[2], "age"@, decimal(c.age as nat)));
    assert(is_bool_field(fs[3], "active"@, c.active));
    assert(is_address_field(fs[4], c.address));
}

/// Reading back the item written for a customer, under that customer's id,
/// gives the same customer.
pub proof fn law_customer_item_roundtrip(fs: Seq<Field>, c: CustomerView)
    requires
        is_customer_fields(fs, c),
    ensures
        decode_customer_spec(c.id, fs) == Some(c),
{
    lemma_written_customer_attrs(fs, c);
    law_customer_attrs_roundtrip(fs, c);
}

/// What a customer write leads to: a refusal, or an item to store.
pub enum CustomerWrite {
    Refused(Reply),
    Store(PutItemRequest),
}

/// The outcome of a write of `c` (shared by register and update).
pub open spec fn customer_write_ok(w: CustomerWrite, c: CustomerView) -> bool {
    if lacks_id(c) {
        w matches CustomerWrite::Refused(r) && is_reply(r, BAD_REQUEST, "Id is required"@)
    } else {
        w matches CustomerWrite::Store(p) && p.table@ == customer_table() && is_customer_fields(
            p.item.fields@,
            c,
        )
    }
}

/// What a register (or update) of a customer with an id stores is read back,
/// under that id, as the same customer.
pub proof fn law_written_customer_reads_back(w: CustomerWrite, c: CustomerView)
    requires
        customer_write_ok(w, c),
        !lacks_id(c),
    ensures
        w matches CustomerWrite::Store(p) && decode_customer_spec(c.id, p.item.fields@) == Some(c),
{
    let p = w->Store_0;
    law_customer_item_roundtrip(p.item.fields@, c);
}

/// A customer write is refused exactly when id and name are both empty, the
/// age is 0 and the customer is inactive; any other customer is stored, in
/// the `Customer` table, as an item that reads back under its id as that
/// same customer.
pub proof fn law_customer_write_refused_exactly_without_id(w: CustomerWrite, c: CustomerView)
    requires
        customer_write_ok(w, c),
    ensures
        (w is Refused) == (c.id.len() == 0 && c.name.len() == 0 && c.age == 0 && !c.active),
        w matches CustomerWrite::Store(p) ==> p.table@ == "Customer"@ && decode_customer_spec(
            c.id,
            p.item.fields@,
        ) == Some(c),
{
    if w is Store {
        law_written_customer_reads_back(w, c);
    }
}

fn customer_write(c: &Customer) -> (w: CustomerWrite)
    ensures
        customer_write_ok(w, c@),
{
    if lacks_id_fields(c) {
        CustomerWrite::Refused(reply(BAD_REQUEST, "Id is required"))
    } else {
        CustomerWrite::Store(
            PutItemRequest { table: String::from_str("Customer"), item: customer_item(c) },
        )
    }
}

/// `POST /register_customer`: refuses a customer that lacks an id, else
/// stores it in the `Customer` table.
pub fn register_customer(c: &Customer) -> (w: CustomerWrite)
    ensures
        customer_write_ok(w, c@),
        (w is Refused) == (c.id@.len() == 0 && c.name@.len() == 0 && c.age == 0 && !c.active),
        w matches CustomerWrite::Store(p) ==> p.table@ == "Customer"@ && decode_customer_spec(
            c.id@,
            p.item.fields@,
        ) == Some(c@),
{
    let w = customer_write(c);
    proof {
        law_customer_write_refused_exactly_without_id(w, c@);
    }
    w
}

/// `PUT /update_customer`: as `register_customer`; the store overwrites.
pub fn update_customer(c: &Customer) -> (w: CustomerWrite)
    ensures
        customer_write_ok(w, c@),
        (w is Refused) == (c.id@.len() == 0 && c.name@.len() == 0 && c.age == 0 && !c.active),
        w matches CustomerWrite::Store(p) ==> p.table@ == "Customer"@ && decode_customer_spec(
            c.id@,
            p.item.fields@,
        ) == Some(c@),
{
    let w = customer_write(c);
    proof {
        law_customer_write_refused_exactly_without_id(w, c@);
    }
    w
}

/// The reply once the store has answered a registration.
pub fn register_customer_reply(stored: &Result<(), StoreError>) -> (r: Reply)
    ensures
        stored is Ok ==> is_reply(r, OK, "Customer registered successfully"@),
        stored is Err ==> is_reply(r, INTERNAL_SERVER_ERROR, "Something went wrong"@),
{
    match stored {
        Ok(_) => reply(OK, "Customer registered successfully"),
        Err(_) => reply(INTERNAL_SERVER_ERROR, "Something went wrong"),
    }
}

/// The reply once the store has answered an update.
pub fn update_customer_reply(stored: &Result<(), StoreError>) -> (r: Reply)
    ensures
        stored is Ok ==> is_reply(r, OK, "Customer updated successfully"@),
        stored is Err ==> is_reply(r, INTERNAL_SERVER_ERROR, "Something went wrong"@),
{
    match stored {
        Ok(_) => reply(OK, "Customer updated successfully"),
        Err(_) => reply(INTERNAL_SERVER_ERROR, "Something went wrong"),
    }
}

/// The request that reads or deletes customer `id`.
pub open spec fn is_customer_key_request(q: KeyRequest, id: Seq<char>) -> bool {
    q.table@ == customer_table() && q.key.fields@.len() == 1 && is_string_field(
        q.key.fields@[0],
        "customer_key"@,
        id,
    )
}

/// Reads and deletes of customer `c.id` address the item written for `c`:
/// the same table, and a key whose `customer_key` is the item's.
pub proof fn law_customer_key_addresses_item(fs: Seq<Field>, c: CustomerView, q: KeyRequest)
    requires
        is_customer_fields(fs, c),
        is_customer_key_request(q, c.id),
    ensures
        string_attr(q.key.fields@, "customer_key"@) == string_attr(fs, "customer_key"@),
        string_attr(fs, "customer_key"@) == Some(c.id),
{
    reveal_with_fuel(find_field, 2);
}

/// `GET /get_customer/{id}`: the read to make.
pub fn get_customer(id: &str) -> (q: KeyRequest)
    ensures
        is_customer_key_request(q, id@),
{
    KeyRequest { table: String::from_str("Customer"), key: customer_key(id) }
}

/// `DELETE /delete_customer/{id}`: the delete to make.
pub fn delete_customer(id: &str) -> (q: KeyRequest)
    ensures
        is_customer_key_request(q, id@),
{
    KeyRequest { table: String::from_str("Customer"), key: customer_key(id) }
}

/// The reply once the store has answered a delete.
pub fn delete_customer_reply(deleted: &Result<(), StoreError>) -> (r: Reply)
    ensures
        deleted is Ok ==> is_reply(r, OK, "Customer deleted successfully"@),
        deleted is Err ==> is_reply(r, INTERNAL_SERVER_ERROR, "Something went wrong"@),
{
    match deleted {
        Ok(_) => reply(OK, "Customer deleted successfully"),
        Err(_) => reply(INTERNAL_SERVER_ERROR, "Something went wrong"),
    }
}

/// What a customer read answers: the customer (sent as JSON) or a text reply.
pub enum CustomerRead {
    Found(Customer),
    Text(Reply),
}

/// A store answer that a customer read can handle: a stored item must read
/// back as a customer.
pub open spec fn customer_read_ok(id: Seq<char>, got: Result<Option<Item>, StoreError>) -> bool {
    got matches Ok(Some(item)) ==> decode_customer_spec(id, item.fields@) is Some
}

/// The reply once the store has answered the read of customer `id`; a stored
/// item must read back as a customer (`decode_customer` tells).
pub fn get_customer_reply(id: &str, got: &Result<Option<Item>, StoreError>) -> (r: CustomerRead)
    requires
        customer_read_ok(id@, *got),
    ensures
        got matches Err(_) ==> (r matches CustomerRead::Text(t) && is_reply(
            t,
            INTERNAL_SERVER_ERROR,
            "Something went wrong"@,
        )),
        got matches Ok(None) ==> (r matches CustomerRead::Text(t) && is_reply(
            t,
            NOT_FOUND,
            "Customer not found"@,
        )),
        got matches Ok(Some(item)) ==> (r matches CustomerRead::Found(found) && Some(found@)
            == decode_customer_spec(id@, item.fields@)),
{
    match got {
        Ok(Some(item)) => match decode_customer(id, item) {
            Some(c) => CustomerRead::Found(c),
            None => {
                proof {
                    assert(false);
                }
                CustomerRead::Text(reply(INTERNAL_SERVER_ERROR, "Something went wrong"))
            },
        },
        Ok(None) => CustomerRead::Text(reply(NOT_FOUND, "Customer not found")),
        Err(_) => CustomerRead::Text(reply(INTERNAL_SERVER_ERROR, "Something went wrong")),
    }
}

} // verus!
