//! The records of the store, and the rows of its lists.
//!
//! A day is a `CalendarDate` and a price or distance a `Number`. The row of
//! a list has two numbers: its position in the list, counted from 1, which
//! holds for that list only, and the key of the entity in the store.

use crate::calendar::CalendarDate;
use crate::number::Number;
use vstd::prelude::*;

verus! {

/// A category of bikes.
#[derive(Debug, Clone)]
pub struct Category {
    pub id: i32,
    pub abbr: String,
    pub name: String,
}

/// A tag.
#[derive(Debug, Clone)]
pub struct Tag {
    pub id: i32,
    pub name: String,
}

/// A tag on a ride.
#[derive(Debug, Clone)]
pub struct TagToRide {
    pub id: i32,
    pub tag_id: i32,
    pub bike_id: i32,
}

/// A tag on a purchase.
#[derive(Debug, Clone)]
pub struct TagToBuy {
    pub id: i32,
    pub tag_id: i32,
    pub buy_id: i32,
}

/// A purchase for a bike.
#[derive(Debug, Clone)]
pub struct BuyToBike {
    pub id: i32,
    pub buy_id: i32,
    pub bike_id: i32,
}

/// A purchase for a category of bikes.
#[derive(Debug, Clone)]
pub struct BuyToCategory {
    pub id: i32,
    pub buy_id: i32,
    pub category_id: i32,
}

/// A row of a list: an entity of the store at a position of the list.
pub trait Row: Sized {
    /// The key of the entity in the store.
    spec fn key(&self) -> i32;

    /// The position of the row in its list, counted from 1.
    spec fn position(&self) -> i32;

    /// The same row at the position `n`.
    spec fn at(self, n: i32) -> Self;

    /// A row that is moved is at its new position, and is the row of the same
    /// entity.
    proof fn lemma_at(self, n: i32)
        ensures
            self.at(n).position() == n,
            self.at(n).key() == self.key(),
    ;

    /// The key of the entity in the store.
    fn store_key(&self) -> (k: i32)
        ensures
            k == self.key(),
    ;

    /// Moves the row to the position `n`.
    fn place(self, n: i32) -> (r: Self)
        ensures
            r == self.at(n),
    ;
}

/// A purchase in a list.
#[derive(Debug, Clone)]
pub struct BuyList {
    pub id: i32,
    pub buy_id: i32,
    pub target: String,
    pub tags: String,
    pub name: String,
    pub price: Number,
    pub date: CalendarDate,
}

impl Row for BuyList {
    open spec fn key(&self) -> i32 {
        self.buy_id
    }

    open spec fn position(&self) -> i32 {
        self.id
    }

    open spec fn at(self, n: i32) -> Self {
        BuyList { id: n, ..self }
    }

    proof fn lemma_at(self, n: i32) {
    }

    fn store_key(&self) -> (k: i32) {
        self.buy_id
    }

    fn place(self, n: i32) -> (r: Self) {
        let mut r: BuyList = self;
        r.id = n;
        r
    }
}

/// A ride in a list.
#[derive(Debug, Clone)]
pub struct RideList {
    pub id: i32,
    pub ride_id: i32,
    pub bike: String,
    pub date: CalendarDate,
    pub distance: Number,
    pub tags: String,
    pub annotation: String,
}

impl Row for RideList {
    open spec fn key(&self) -> i32 {
        self.ride_id
    }

    open spec fn position(&self) -> i32 {
        self.id
    }

    open spec fn at(self, n: i32) -> Self {
        RideList { id: n, ..self }
    }

    proof fn lemma_at(self, n: i32) {
    }

    fn store_key(&self) -> (k: i32) {
        self.ride_id
    }

    fn place(self, n: i32) -> (r: Self) {
        let mut r: RideList = self;
        r.id = n;
        r
    }
}

/// A bike in a list.
#[derive(Debug, Clone)]
pub struct BikeList {
    pub id: i32,
    pub bike_id: i32,
    pub code: String,
    pub name: String,
    pub added: CalendarDate,
}

impl Row for BikeList {
    open spec fn key(&self) -> i32 {
        self.bike_id
    }

    open spec fn position(&self) -> i32 {
        self.id
    }

    open spec fn at(self, n: i32) -> Self {
        BikeList { id: n, ..self }
    }

    proof fn lemma_at(self, n: i32) {
    }

    fn store_key(&self) -> (k: i32) {
        self.bike_id
    }

    fn place(self, n: i32) -> (r: Self) {
        let mut r: BikeList = self;
        r.id = n;
        r
    }
}

/// A chain lubrication in a list.
#[derive(Debug, Clone)]
pub struct ChainLubricationList {
    pub id: i32,
    pub lub_id: i32,
    pub bike: String,
    pub date: CalendarDate,
    pub passed: Number,
    pub annotation: String,
}

impl Row for ChainLubricationList {
    open spec fn key(&self) -> i32 {
        self.lub_id
    }

    open spec fn position(&self) -> i32 {
        self.id
    }

    open spec fn at(self, n: i32) -> Self {
        ChainLubricationList { id: n, ..self }
    }

    proof fn lemma_at(self, n: i32) {
    }

    fn store_key(&self) -> (k: i32) {
        self.lub_id
    }

    fn place(self, n: i32) -> (r: Self) {
        let mut r: ChainLubricationList = self;
        r.id = n;
        r
    }
}

} // verus!
