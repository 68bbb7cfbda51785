//! The decisions of a live source element that receives audio and video over NDI.
//!
//! [`ndi_src::NdiSrc`] holds the element's properties, what it knows about the
//! streams it receives, and the handle that controls its receiver. Each of its
//! methods takes what the media framework or the receiver has delivered and says
//! what is to be done next; whoever embeds it connects, captures and pushes.
//! The modules around it define the values that pass in and out. [`laws`] states
//! what holds of the element as a whole, and [`property_laws`], [`control_laws`],
//! [`query_laws`] and [`capture_laws`] what its properties, its commands, its answers
//! and its captures are for.

pub mod capture_laws;
pub mod connection;
pub mod control_laws;
pub mod declaration;
pub mod element;
pub mod framework;
pub mod laws;
pub mod ndi_src;
pub mod property;
pub mod property_laws;
pub mod query;
pub mod query_laws;
pub mod settings;
pub mod state;
