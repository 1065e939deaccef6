//! The list of a release's assets.
use crate::game_files::assets::{
    content_hash, file_path, resource_path, spec_content_hash, spec_file_path,
    spec_resource_path, spec_texts, Asset, Download,
};
use crate::game_files::{spec_parsed_url, GameFilesAPIBuilder};
use crate::text::{same_text, spec_keys_apart};
use vstd::prelude::*;
use vstd::string::*;

verus! {

/// The list of a release's assets.
#[derive(Debug, Clone, PartialEq, Eq)]
pub struct AssetFile {
    /// Whether the assets are kept by their names, as old releases do, and
    /// not by their hashes.
    pub map_to_resources: bool,
    /// The assets, each under its name. No name stands twice.
    pub objects: Vec<(String, AssetResponse)>,
}

/// What the list of assets says of one asset.
#[derive(Debug, Clone, PartialEq, Eq)]
pub struct AssetResponse {
    pub hash: String,
    pub size: u32,
}

/// `at` is where the first asset named `name` stands among `objects`.
pub open spec fn spec_first_asset(
    objects: Seq<(String, AssetResponse)>,
    name: Seq<char>,
    at: int,
) -> bool {
    &&& 0 <= at < objects.len()
    &&& objects[at].0@ == name
    &&& forall|j: int| 0 <= j < at ==> (#[trigger] objects[j]).0@ != name
}

/// An asset named `name` is among `objects`.
pub open spec fn spec_has_asset(objects: Seq<(String, AssetResponse)>, name: Seq<char>) -> bool {
    exists|at: int| 0 <= at < objects.len() && (#[trigger] objects[at]).0@ == name
}

impl AssetFile {
    /// No two assets of the list have the same name.
    pub open spec fn spec_wf(self) -> bool {
        spec_keys_apart(self.objects@)
    }

    /// The asset named `name`: what the list says of it, under that name;
    /// `None` where the list holds no asset of that name.
    pub fn get_asset(&self, name: &str) -> (found: Option<Asset>)
        ensures
            match found {
                Some(asset) => asset.name@ == name@ && exists|at: int|
                    spec_first_asset(self.objects@, name@, at) && asset.data.hash == (
                    #[trigger] self.objects@[at]).1.hash && asset.data.size
                        == self.objects@[at].1.size,
                None => !spec_has_asset(self.objects@, name@),
            },
    {
        let mut i: usize = 0;
        while i < self.objects.len()
            invariant
                i <= self.objects.len(),
                forall|j: int| 0 <= j < i ==> (#[trigger] self.objects@[j]).0@ != name@,
            decreases self.objects.len() - i,
        {
            if same_text(self.objects[i].0.as_str(), name) {
                assert(spec_first_asset(self.objects@, name@, i as int));
                return Some(
                    Asset {
                        data: AssetResponse {
                            hash: self.objects[i].1.hash.clone(),
                            size: self.objects[i].1.size,
                        },
                        name: String::from_str(name),
                    },
                );
            }
            i = i + 1;
        }
        None
    }
}

/// In a list in which no two assets have the same name, an asset of a name
/// is the first, and so the only one, of that name.
pub proof fn lemma_asset_names_are_apart(file: AssetFile, name: Seq<char>, at: int)
    requires
        file.spec_wf(),
        0 <= at < file.objects@.len(),
        file.objects@[at].0@ == name,
    ensures
        spec_first_asset(file.objects@, name, at),
{
}

/// A file to fetch, and where to put it.
#[derive(Debug, Clone, PartialEq, Eq)]
pub struct DownloadToFile {
    /// The parts of the file's path below the directory of the assets,
    /// outermost first.
    pub location: Vec<String>,
    pub download: Download,
}

/// A download of the file with the hash `hash` is among `downloads`.
pub open spec fn spec_planned(downloads: Seq<(String, DownloadToFile)>, hash: Seq<char>) -> bool {
    exists|k: int| 0 <= k < downloads.len() && (#[trigger] downloads[k]).0@ == hash
}

/// The planning of the downloads of a list of assets, part of the way
/// through the list.
#[derive(Debug)]
pub struct AssetPlan {
    pub map_to_resources: bool,
    /// The assets of the list, each under its name.
    pub objects: Vec<(String, AssetResponse)>,
    /// How many of the assets have been gone through.
    pub next: usize,
    /// The downloads planned so far, each under the hash of its file.
    pub downloads: Vec<(String, DownloadToFile)>,
}

/// What the planning asks of its caller next.
#[derive(Debug)]
pub enum PlanStep {
    /// Tell whether the file at `location`, below the directory of the
    /// assets, exists, and hand the answer to `plan`.
    Probe { plan: AssetPlan, location: Vec<String> },
    /// The planning is over: these are the downloads, each under the hash of
    /// its file. It fails where the URL of an asset is none.
    Done(Result<Vec<(String, DownloadToFile)>, url::ParseError>),
}

/// The parts of the path of the file of `object`.
pub open spec fn spec_location(object: (String, AssetResponse), map_to_resources: bool) -> Seq<
    Seq<char>,
> {
    spec_file_path(object.0@, (spec_content_hash(object.1.hash@), object.1.hash@), map_to_resources)
}

/// `at` is where the planning goes on from `next` with `downloads` planned:
/// every asset from `next` up to `at` has a file that is planned already, and
/// the asset at `at`, where there is one, has not.
pub open spec fn spec_goes_on_at(
    objects: Seq<(String, AssetResponse)>,
    next: int,
    downloads: Seq<(String, DownloadToFile)>,
    at: int,
) -> bool {
    &&& next <= at <= objects.len()
    &&& forall|j: int|
        next <= j < at ==> spec_planned(downloads, (#[trigger] objects[j]).1.hash@)
    &&& at < objects.len() ==> !spec_planned(downloads, objects[at].1.hash@)
}

/// `step` is how the planning goes on from `next` with `downloads` planned:
/// it passes over the assets whose files are planned already, and asks
/// whether the file of the first other asset exists; with no asset left the
/// planning is over, with the downloads planned so far.
pub open spec fn spec_goes_on_with(
    map_to_resources: bool,
    objects: Vec<(String, AssetResponse)>,
    next: int,
    downloads: Seq<(String, DownloadToFile)>,
    step: PlanStep,
) -> bool {
    match step {
        PlanStep::Probe { plan, location } => {
            &&& plan.map_to_resources == map_to_resources
            &&& plan.objects == objects
            &&& plan.downloads@ == downloads
            &&& plan.next < objects@.len()
            &&& spec_goes_on_at(objects@, next, downloads, plan.next as int)
            &&& spec_texts(location@) == spec_location(
                objects@[plan.next as int],
                map_to_resources,
            )
        },
        PlanStep::Done(Ok(planned)) => {
            &&& planned@ == downloads
            &&& spec_goes_on_at(objects@, next, downloads, objects@.len() as int)
        },
        PlanStep::Done(Err(_)) => false,
    }
}

impl AssetPlan {
    /// Goes on with the planning: see [`spec_goes_on_with`].
    pub fn go_on(self) -> (step: PlanStep)
        requires
            self.next <= self.objects@.len(),
        ensures
            spec_goes_on_with(
                self.map_to_resources,
                self.objects,
                self.next as int,
                self.downloads@,
                step,
            ),
    {
        let mut at: usize = self.next;
        while at < self.objects.len()
            invariant
                self.next <= at <= self.objects@.len(),
                forall|j: int|
                    self.next <= j < at ==> spec_planned(
                        self.downloads@,
                        (#[trigger] self.objects@[j]).1.hash@,
                    ),
            decreases self.objects.len() - at,
        {
            if !is_planned(&self.downloads, self.objects[at].1.hash.as_str()) {
                let location = file_path(
                    self.objects[at].0.as_str(),
                    (
                        content_hash(self.objects[at].1.hash.as_str()),
                        self.objects[at].1.hash.as_str(),
                    ),
                    self.map_to_resources,
                );
                return PlanStep::Probe {
                    plan: AssetPlan {
                        map_to_resources: self.map_to_resources,
                        objects: self.objects,
                        next: at,
                        downloads: self.downloads,
                    },
                    location,
                };
            }
            at = at + 1;
        }
        PlanStep::Done(Ok(self.downloads))
    }

    /// Takes the answer to the question whether the file of the asset at
    /// `self.next` exists, and goes on. A file that exists is passed over.
    /// For one that does not, a download is planned under its hash: the file
    /// is fetched from its path below the base of the assets, it has the size
    /// that the list gives, and it is put where the question pointed. Where
    /// that URL is none, the planning fails.
    pub fn on_probe(self, game_files: &GameFilesAPIBuilder, exists: bool) -> (step: PlanStep)
        requires
            self.next < self.objects@.len(),
        ensures
            exists ==> spec_goes_on_with(
                self.map_to_resources,
                self.objects,
                self.next + 1,
                self.downloads@,
                step,
            ),
            !exists ==> match spec_parsed_url(
                game_files.resource_base@ + seq!['/'] + spec_resource_path(
                    self.objects@[self.next as int].1.hash@,
                ),
            ) {
                None => step matches PlanStep::Done(Err(_)),
                Some(url) => exists|planned: DownloadToFile|
                    {
                        &&& planned.download.url@ == url
                        &&& planned.download.file_size == self.objects@[self.next as int].1.size
                        &&& spec_texts(planned.location@) == spec_location(
                            self.objects@[self.next as int],
                            self.map_to_resources,
                        )
                        &&& spec_goes_on_with(
                            self.map_to_resources,
                            self.objects,
                            self.next + 1,
                            #[trigger] self.downloads@.push(
                                (self.objects@[self.next as int].1.hash, planned),
                            ),
                            step,
                        )
                    },
            },
    {
        let next = self.next;
        let count = self.objects.len();
        assert(next < count);
        let mut downloads = self.downloads;
        if !exists {
            let hash = self.objects[next].1.hash.clone();
            let url = match game_files.create_resource_url(resource_path(hash.as_str()).as_str()) {
                Ok(url) => url,
                Err(error) => {
                    return PlanStep::Done(Err(error));
                },
            };
            let location = file_path(
                self.objects[next].0.as_str(),
                (content_hash(hash.as_str()), hash.as_str()),
                self.map_to_resources,
            );
            let planned = DownloadToFile {
                location,
                download: Download { url, file_size: self.objects[next].1.size as usize },
            };
            downloads.push((hash, planned));
        }
        let plan = AssetPlan {
            map_to_resources: self.map_to_resources,
            objects: self.objects,
            next: next + 1,
            downloads,
        };
        plan.go_on()
    }
}

/// The planning never plans two downloads under the same hash: where the
/// downloads so far stand under hashes that are all different, so do they
/// together with the download that is planned for the asset whose file was
/// asked about.
pub proof fn lemma_planning_keeps_hashes_apart(
    objects: Seq<(String, AssetResponse)>,
    next: int,
    downloads: Seq<(String, DownloadToFile)>,
    at: int,
    planned: DownloadToFile,
)
    requires
        spec_keys_apart(downloads),
        spec_goes_on_at(objects, next, downloads, at),
        at < objects.len(),
    ensures
        spec_keys_apart(downloads.push((objects[at].1.hash, planned))),
{
    let longer = downloads.push((objects[at].1.hash, planned));
    assert forall|i: int, j: int| 0 <= i < j < longer.len() implies (#[trigger] longer[i]).0@ != (
    #[trigger] longer[j]).0@ by {
        if j == downloads.len() {
            assert(longer[i] == downloads[i]);
            assert(!spec_planned(downloads, objects[at].1.hash@));
        } else {
            assert(longer[i] == downloads[i]);
            assert(longer[j] == downloads[j]);
        }
    }
}

/// Whether a download of the file with the hash `hash` is among
/// `downloads`.
pub fn is_planned(downloads: &Vec<(String, DownloadToFile)>, hash: &str) -> (planned: bool)
    ensures
        planned == spec_planned(downloads@, hash@),
{
    let mut k: usize = 0;
    while k < downloads.len()
        invariant
            k <= downloads.len(),
            forall|j: int| 0 <= j < k ==> (#[trigger] downloads@[j]).0@ != hash@,
        decreases downloads.len() - k,
    {
        if same_text(downloads[k].0.as_str(), hash) {
            return true;
        }
        k = k + 1;
    }
    false
}

impl AssetFile {
    /// Begins to plan the downloads of the assets: one for every file that
    /// does not exist yet, and none twice for the same hash. The assets are
    /// gone through in their order; whether a file exists is asked of the
    /// caller, one file at a time.
    pub fn download(self) -> (step: PlanStep)
        ensures
            spec_goes_on_with(self.map_to_resources, self.objects, 0, Seq::empty(), step),
    {
        let plan = AssetPlan {
            map_to_resources: self.map_to_resources,
            objects: self.objects,
            next: 0,
            downloads: Vec::new(),
        };
        plan.go_on()
    }
}

} // verus!
