//! The decisions of a crawler that visits one page: taking the page's URL
//! apart, asking the site's robots policy whether the page may be fetched,
//! and finding the links of the page's navigation menu.
//!
//! Nothing here touches the network. The one who runs a crawl fetches what
//! `driver::advance` asks for and hands back what came.

pub mod decompose;
pub mod driver;
pub mod error;
pub mod links;
pub mod robots;
pub mod text;
