//! An IndexedDB storage engine on top of a relational store that is reached
//! through transactions and cursors.
//!
//! Nothing in here touches the store. Whatever takes several calls of it is a
//! machine: it says what is to be done next, is told how that went, and says what
//! is to be done then. Each machine has a spec function for a single step, which
//! its `step` is proved to take, and laws for its whole course, proved for whatever
//! the store answers.
//!
//! - [`batch`] is the course of a transaction and its requests, and [`batch_laws`]
//!   what holds of it: each request is answered once, in order, no success is reported
//!   for a write that was not committed, and the completion comes once, last.
//!   [`batch_course`] gives the whole course of a batch, from what the store answers.
//!   [`work`] says what is to be done for a request, [`answer`] what it is answered
//!   with, and [`reply`] holds the answers until the commit. [`read_laws`] says how the
//!   answers to different requests for the same records agree.
//! - [`session`] is a call in a transaction of its own, and [`lookup`] a call that
//!   only looks something up.
//! - [`cursor`] reads the row of an object store, and [`scan`] its records.
//! - [`opening`] is what it takes to open the database.
//! - [`engine`] ties them to the methods of the engine.
//!
//! What the functions are for is stated apart from how they do it, over what goes into a
//! call and what comes out of it: in [`put_laws`] for what is done for a request, in
//! [`answer_laws`] and [`reply_laws`] for its reply, in [`reader_laws`] for what is read
//! from a table column by column, in [`course_laws`] for the courses of the machines, in
//! [`engine_laws`] for what the engine hands on, and in [`text_laws`] for the texts of
//! errors.

pub mod answer;
pub mod answer_laws;
pub mod batch;
pub mod batch_course;
pub mod batch_laws;
pub mod course_laws;
pub mod cursor;
pub mod debug_text;
pub mod engine;
pub mod engine_laws;
pub mod error;
pub mod lookup;
pub mod model;
pub mod opening;
pub mod put_laws;
pub mod read_laws;
pub mod reader_laws;
pub mod reply;
pub mod reply_laws;
pub mod scan;
pub mod session;
pub mod text_laws;
pub mod work;
