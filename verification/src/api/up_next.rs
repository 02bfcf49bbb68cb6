//! `GET /api/v1/up-next`: the next unwatched aired episode of each show.
use vstd::prelude::*;
use crate::models::show::UpNextItem;

verus! {

pub struct UpNextResponse {
    pub items: Vec<UpNextItem>,
}

} // verus!
