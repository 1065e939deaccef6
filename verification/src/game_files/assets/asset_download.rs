//! An asset together with where it is fetched from.
use crate::game_files::assets::{
    content_hash, file_path, spec_content_hash, spec_file_path, spec_texts, Asset, Download,
};
use vstd::prelude::*;

verus! {

/// An asset, and where it is fetched from.
#[derive(Debug)]
pub struct AssetDownload<'a, D> {
    pub asset: &'a Asset,
    pub download: D,
}

impl<'a, D> AssetDownload<'a, D> {
    /// The parts of the path of the asset's file below the directory of the
    /// assets, outermost first: by the asset's name where the release maps
    /// its assets to resources, else by its hash.
    pub fn file_path(&self, map_to_resources: bool) -> (parts: Vec<String>)
        ensures
            spec_texts(parts@) == spec_file_path(
                self.asset.name@,
                (spec_content_hash(self.asset.data.hash@), self.asset.data.hash@),
                map_to_resources,
            ),
    {
        let sub = content_hash(self.asset.data.hash.as_str());
        file_path(self.asset.name.as_str(), (sub, self.asset.data.hash.as_str()), map_to_resources)
    }
}

impl<'a> AssetDownload<'a, Download> {
    /// Where the asset is fetched from.
    pub fn into(self) -> (download: Download)
        ensures
            download == self.download,
    {
        self.download
    }
}

} // verus!
