//! A typed reader for the replies of an image-gallery metadata service.

pub mod blob;
pub mod client;
pub mod codec;
pub mod endpoint;
pub mod gallery;
pub mod images;
pub mod integrated;
pub mod json;
pub mod labeled;
pub mod laws;
pub mod listing;

pub use crate::blob::{proxy, ProxyBlob, Undecodable};
pub use crate::client::{
    from_text, galleryinfo, images, index, info, integrated, list, proxy_reply, reply, ProxyError,
    TransportError,
};
pub use crate::codec::{Entity, Record};
pub use crate::endpoint::{request, Endpoint, Request};
pub use crate::gallery::{Files, GalleryInfo, GalleryInfoIntegrated};
pub use crate::images::{Images, Urls};
pub use crate::integrated::{GalleryInfoAndTags, Integrated};
pub use crate::labeled::TagsOrTitleOrArtistOrGroupOrTypeOrLanguageOrSeriesOrCharacters;
pub use crate::listing::{Info, InfoListOrIntegrated, List};
