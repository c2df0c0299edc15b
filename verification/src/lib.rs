//! A small verified repository of version records: rows of
//! `(id, version key, download)` kept in an embedded database, with a listing
//! that returns the ten highest versions in descending order, and inserts,
//! deletes and updates by id.

pub mod db;
pub mod leis;
pub mod registro;
pub mod selecao;
