//! Pictures as assets.

use vstd::prelude::*;
use std::sync::Arc;
use crate::assets::asset::{Asset, AssetMetadata};
use crate::assets::loader::AssetError;

verus! {

#[verifier::external_type_specification]
#[verifier::external_body]
pub struct ExDynamicImage(image::DynamicImage);

#[verifier::external_type_specification]
#[verifier::external_body]
pub struct ExImageError(image::ImageError);

/// `image::DynamicImage::write_to` with the PNG format, into memory: the
/// bytes of the file, or the encoder's error, as for a picture of a colour
/// type that PNG cannot hold. Nothing is claimed of either.
#[verifier::external_body]
fn encode_png(picture: &image::DynamicImage) -> (r: Result<Vec<u8>, image::ImageError>) {
    let mut buffer = Vec::new();
    match picture.write_to(&mut std::io::Cursor::new(&mut buffer), image::ImageOutputFormat::Png) {
        Ok(()) => Ok(buffer),
        Err(e) => Err(e),
    }
}

/// The text of an `image::ImageError`, as its `Display` gives it.
#[verifier::external_body]
fn error_text(error: &image::ImageError) -> (text: String) {
    error.to_string()
}

/// A picture, shared, with where it came from.
pub struct ImageAsset {
    pub data: Arc<image::DynamicImage>,
    pub metadata: AssetMetadata,
}

impl ImageAsset {
    pub fn new(data: Arc<image::DynamicImage>, metadata: AssetMetadata) -> (a: ImageAsset)
        ensures
            a.data == data,
            a.metadata == metadata,
    {
        ImageAsset { data, metadata }
    }

    /// What serialising comes to, for what the encoder came to: its bytes,
    /// or `Failed` with its words.
    pub fn encoded(outcome: Result<Vec<u8>, String>) -> (r: Result<Vec<u8>, AssetError>)
        ensures
            r == (match outcome {
                Ok(bytes) => Ok::<Vec<u8>, AssetError>(bytes),
                Err(reason) => Err::<Vec<u8>, AssetError>(AssetError::Failed { reason }),
            }),
    {
        match outcome {
            Ok(bytes) => Ok(bytes),
            Err(reason) => Err(AssetError::Failed { reason }),
        }
    }

    /// The picture as a PNG file: what [`ImageAsset::encoded`] makes of
    /// what the encoder comes to. Where the encoder fails, its error comes
    /// back as `Failed` with the encoder's words.
    pub fn serialize(&self) -> (r: Result<Vec<u8>, AssetError>)
        ensures
            r matches Err(e) ==> e is Failed,
    {
        let outcome = match encode_png(&self.data) {
            Ok(bytes) => Ok(bytes),
            Err(e) => Err(error_text(&e)),
        };
        ImageAsset::encoded(outcome)
    }
}

impl Asset for ImageAsset {
    open spec fn called(&self, name: Seq<char>) -> bool {
        name == "Image"@
    }

    fn asset_type(&self) -> (name: &'static str) {
        "Image"
    }
}

} // verus!
