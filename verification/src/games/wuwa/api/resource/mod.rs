pub use crate::games::pgr::api::resource::schema;
