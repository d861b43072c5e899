//! The salon as callers see it: the full entity, its listed shape, and the
//! payloads that create and change one.

use crate::region::Sector;
use vstd::prelude::*;

verus! {

/// A point in time without a zone, as microseconds since 1970-01-01 00:00:00.
#[derive(Debug, Clone, Copy, PartialEq, Eq, Structural)]
pub struct Timestamp {
    pub micros: i64,
}

/// A salon with every attribute present.
#[allow(non_snake_case)]
#[derive(Debug, Clone, PartialEq, Eq)]
pub struct Salons {
    pub id: String,
    pub ownerId: String,
    pub name: String,
    pub description: String,
    pub address: String,
    pub region: Sector,
    pub phone: String,
    pub email: String,
    pub createdAt: Timestamp,
    pub updatedAt: Timestamp,
}

/// The mathematical value of a [`Salons`].
#[allow(non_snake_case)]
pub struct SalonsView {
    pub id: Seq<char>,
    pub ownerId: Seq<char>,
    pub name: Seq<char>,
    pub description: Seq<char>,
    pub address: Seq<char>,
    pub region: Sector,
    pub phone: Seq<char>,
    pub email: Seq<char>,
    pub createdAt: int,
    pub updatedAt: int,
}

impl View for Salons {
    type V = SalonsView;

    open spec fn view(&self) -> SalonsView {
        SalonsView {
            id: self.id@,
            ownerId: self.ownerId@,
            name: self.name@,
            description: self.description@,
            address: self.address@,
            region: self.region,
            phone: self.phone@,
            email: self.email@,
            createdAt: self.createdAt.micros as int,
            updatedAt: self.updatedAt.micros as int,
        }
    }
}

/// A salon as a listing shows it: each attribute on its own is present or
/// absent.
#[allow(non_snake_case)]
#[allow(non_camel_case_types)]
#[derive(Debug, Clone, PartialEq, Eq)]
pub struct Salon_QR {
    pub id: Option<String>,
    pub ownerId: Option<String>,
    pub name: Option<String>,
    pub description: Option<String>,
    pub address: Option<String>,
    pub region: Option<Sector>,
    pub phone: Option<String>,
    pub email: Option<String>,
    pub createdAt: Option<Timestamp>,
    pub updatedAt: Option<Timestamp>,
}

/// The mathematical value of a [`Salon_QR`].
#[allow(non_snake_case)]
pub struct ListedView {
    pub id: Option<Seq<char>>,
    pub ownerId: Option<Seq<char>>,
    pub name: Option<Seq<char>>,
    pub description: Option<Seq<char>>,
    pub address: Option<Seq<char>>,
    pub region: Option<Sector>,
    pub phone: Option<Seq<char>>,
    pub email: Option<Seq<char>>,
    pub createdAt: Option<int>,
    pub updatedAt: Option<int>,
}

/// The mathematical value of an optional point in time.
pub open spec fn moment(at: Option<Timestamp>) -> Option<int> {
    match at {
        Some(t) => Some(t.micros as int),
        None => None,
    }
}

impl View for Salon_QR {
    type V = ListedView;

    open spec fn view(&self) -> ListedView {
        ListedView {
            id: self.id.deep_view(),
            ownerId: self.ownerId.deep_view(),
            name: self.name.deep_view(),
            description: self.description.deep_view(),
            address: self.address.deep_view(),
            region: self.region,
            phone: self.phone.deep_view(),
            email: self.email.deep_view(),
            createdAt: moment(self.createdAt),
            updatedAt: moment(self.updatedAt),
        }
    }
}

/// What a successful creation or update reports: the id of the row and a
/// message.
#[derive(Debug, Clone, PartialEq, Eq)]
pub struct InsertReturnCols {
    pub id: String,
    pub msg: String,
}

/// The mathematical value of an [`InsertReturnCols`].
pub struct InsertReturnColsView {
    pub id: Seq<char>,
    pub msg: Seq<char>,
}

impl View for InsertReturnCols {
    type V = InsertReturnColsView;

    open spec fn view(&self) -> InsertReturnColsView {
        InsertReturnColsView { id: self.id@, msg: self.msg@ }
    }
}

/// The attributes from which a salon is created.
#[allow(non_snake_case)]
#[derive(Debug, Clone, PartialEq, Eq)]
pub struct NewSalone {
    pub ownerId: String,
    pub name: String,
    pub description: String,
    pub address: String,
    pub region: Sector,
    pub phone: String,
    pub email: String,
}

/// The mathematical value of a [`NewSalone`].
#[allow(non_snake_case)]
pub struct NewSaloneView {
    pub ownerId: Seq<char>,
    pub name: Seq<char>,
    pub description: Seq<char>,
    pub address: Seq<char>,
    pub region: Sector,
    pub phone: Seq<char>,
    pub email: Seq<char>,
}

impl View for NewSalone {
    type V = NewSaloneView;

    open spec fn view(&self) -> NewSaloneView {
        NewSaloneView {
            ownerId: self.ownerId@,
            name: self.name@,
            description: self.description@,
            address: self.address@,
            region: self.region,
            phone: self.phone@,
            email: self.email@,
        }
    }
}

/// A partial change to a salon: any subset of its attributes.
#[allow(non_snake_case)]
#[derive(Debug, Clone, PartialEq, Eq)]
pub struct UpdateSalone {
    pub ownerId: Option<String>,
    pub name: Option<String>,
    pub description: Option<String>,
    pub address: Option<String>,
    pub region: Option<Sector>,
    pub phone: Option<String>,
    pub email: Option<String>,
}

/// The mathematical value of an [`UpdateSalone`].
#[allow(non_snake_case)]
pub struct UpdateSaloneView {
    pub ownerId: Option<Seq<char>>,
    pub name: Option<Seq<char>>,
    pub description: Option<Seq<char>>,
    pub address: Option<Seq<char>>,
    pub region: Option<Sector>,
    pub phone: Option<Seq<char>>,
    pub email: Option<Seq<char>>,
}

impl View for UpdateSalone {
    type V = UpdateSaloneView;

    open spec fn view(&self) -> UpdateSaloneView {
        UpdateSaloneView {
            ownerId: self.ownerId.deep_view(),
            name: self.name.deep_view(),
            description: self.description.deep_view(),
            address: self.address.deep_view(),
            region: self.region,
            phone: self.phone.deep_view(),
            email: self.email.deep_view(),
        }
    }
}

} // verus!
