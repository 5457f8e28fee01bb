use crate::infra::chance::random_english_word;
use vstd::prelude::*;

verus! {

/// The greeting page.
#[derive(Debug)]
pub struct HelloTemplate {
    pub name: String,
}

#[derive(Debug)]
pub struct HelloQuery {
    pub name: Option<String>,
}

/// An item of a list on a page.
#[derive(Debug)]
pub struct ItemTemplate {
    pub text: String,
}

/// The greeting page for the name in the query, or for `World`.
pub fn render_hello_ctrl(query: HelloQuery) -> (page: HelloTemplate)
    ensures
        page.name@ == (match query.name {
            Some(name) => name@,
            None => "World"@,
        }),
{
    let name = match query.name {
        Some(name) => name,
        None => String::from_str("World"),
    };
    HelloTemplate { name }
}

/// An item that holds a random English word.
pub fn say_hello() -> (item: ItemTemplate) {
    ItemTemplate { text: random_english_word() }
}

} // verus!
