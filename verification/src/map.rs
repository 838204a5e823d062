//! The data model of a BeatSaver map.
//!
//! Fractional quantities are held as scaled integers: tempo, note jump speed
//! and notes per second in thousandths, star ratings in hundredths, and the
//! vote score in hundredths of a percent.

use vstd::prelude::*;
use vstd::string::*;
use crate::text::same_text;

verus! {

/// The view of an optional string.
pub open spec fn opt_text(o: Option<String>) -> Option<Seq<char>> {
    match o {
        Some(s) => Some(s@),
        None => None,
    }
}

/// The gameplay mode a difficulty belongs to.
#[derive(Clone, Copy, Debug, PartialEq, Eq, Structural)]
pub enum Characteristic {
    Standard,
    OneSaber,
    NoArrows,
    Rotation90Degrees,
    Rotation360Degrees,
    Lightshow,
    Lawless,
    Legacy,
}

impl Characteristic {
    /// The name under which the remote service lists this characteristic.
    pub open spec fn name_spec(self) -> Seq<char> {
        match self {
            Characteristic::Standard => "Standard"@,
            Characteristic::OneSaber => "OneSaber"@,
            Characteristic::NoArrows => "NoArrows"@,
            Characteristic::Rotation90Degrees => "90Degree"@,
            Characteristic::Rotation360Degrees => "360Degree"@,
            Characteristic::Lightshow => "Lightshow"@,
            Characteristic::Lawless => "Lawless"@,
            Characteristic::Legacy => "Legacy"@,
        }
    }

    /// The name under which the remote service lists this characteristic.
    pub fn name(&self) -> (name: &'static str)
        ensures
            name@ == self.name_spec(),
    {
        match self {
            Characteristic::Standard => "Standard",
            Characteristic::OneSaber => "OneSaber",
            Characteristic::NoArrows => "NoArrows",
            Characteristic::Rotation90Degrees => "90Degree",
            Characteristic::Rotation360Degrees => "360Degree",
            Characteristic::Lightshow => "Lightshow",
            Characteristic::Lawless => "Lawless",
            Characteristic::Legacy => "Legacy",
        }
    }

    /// The characteristic that the service lists under `name`, if there is one.
    pub fn from_name(name: &str) -> (found: Option<Characteristic>)
        ensures
            match found {
                Some(c) => c.name_spec() == name@,
                None => forall|c: Characteristic| c.name_spec() != name@,
            },
    {
        if same_text(name, "Standard") {
            Some(Characteristic::Standard)
        } else if same_text(name, "OneSaber") {
            Some(Characteristic::OneSaber)
        } else if same_text(name, "NoArrows") {
            Some(Characteristic::NoArrows)
        } else if same_text(name, "90Degree") {
            Some(Characteristic::Rotation90Degrees)
        } else if same_text(name, "360Degree") {
            Some(Characteristic::Rotation360Degrees)
        } else if same_text(name, "Lightshow") {
            Some(Characteristic::Lightshow)
        } else if same_text(name, "Lawless") {
            Some(Characteristic::Lawless)
        } else if same_text(name, "Legacy") {
            Some(Characteristic::Legacy)
        } else {
            None
        }
    }
}

/// The five difficulty levels, from the easiest up.
#[derive(Clone, Copy, Debug, PartialEq, Eq, Structural)]
pub enum DifficultyLevel {
    Easy,
    Normal,
    Hard,
    Expert,
    ExpertPlus,
}

impl DifficultyLevel {
    /// The level's name as the remote service writes it.
    pub open spec fn name_spec(self) -> Seq<char> {
        match self {
            DifficultyLevel::Easy => "Easy"@,
            DifficultyLevel::Normal => "Normal"@,
            DifficultyLevel::Hard => "Hard"@,
            DifficultyLevel::Expert => "Expert"@,
            DifficultyLevel::ExpertPlus => "ExpertPlus"@,
        }
    }

    /// The level's name as the remote service writes it.
    pub fn name(&self) -> (name: &'static str)
        ensures
            name@ == self.name_spec(),
    {
        match self {
            DifficultyLevel::Easy => "Easy",
            DifficultyLevel::Normal => "Normal",
            DifficultyLevel::Hard => "Hard",
            DifficultyLevel::Expert => "Expert",
            DifficultyLevel::ExpertPlus => "ExpertPlus",
        }
    }

    /// The level named `name`; `None` for any text but the five names.
    pub fn from_name(name: &str) -> (found: Option<DifficultyLevel>)
        ensures
            match found {
                Some(level) => level.name_spec() == name@,
                None => forall|level: DifficultyLevel| level.name_spec() != name@,
            },
    {
        if same_text(name, "Easy") {
            Some(DifficultyLevel::Easy)
        } else if same_text(name, "Normal") {
            Some(DifficultyLevel::Normal)
        } else if same_text(name, "Hard") {
            Some(DifficultyLevel::Hard)
        } else if same_text(name, "Expert") {
            Some(DifficultyLevel::Expert)
        } else if same_text(name, "ExpertPlus") {
            Some(DifficultyLevel::ExpertPlus)
        } else {
            None
        }
    }
}

/// Song data of a map.
#[derive(Debug, PartialEq, Eq)]
pub struct MapDetailMetadata {
    /// Beats per minute, in thousandths.
    pub bpm: i64,
    /// Length of the song in seconds.
    pub duration: u32,
    pub song_name: String,
    pub song_sub_name: String,
    pub song_author_name: String,
    pub level_author_name: String,
}

/// What contracts say of a [`MapDetailMetadata`].
pub struct MapDetailMetadataView {
    pub bpm: int,
    pub duration: nat,
    pub song_name: Seq<char>,
    pub song_sub_name: Seq<char>,
    pub song_author_name: Seq<char>,
    pub level_author_name: Seq<char>,
}

impl View for MapDetailMetadata {
    type V = MapDetailMetadataView;

    open spec fn view(&self) -> MapDetailMetadataView {
        MapDetailMetadataView {
            bpm: self.bpm as int,
            duration: self.duration as nat,
            song_name: self.song_name@,
            song_sub_name: self.song_sub_name@,
            song_author_name: self.song_author_name@,
            level_author_name: self.level_author_name@,
        }
    }
}

/// One playable difficulty of a map.
#[derive(Debug, PartialEq, Eq)]
pub struct MapDetail {
    /// Note jump speed, in thousandths.
    pub njs: i64,
    /// Notes per second, in thousandths.
    pub nps: i64,
    pub notes: u32,
    pub bombs: u32,
    pub obstacles: u32,
    /// BeatLeader star rating, in hundredths.
    pub bl_stars: Option<u32>,
    /// ScoreSaber star rating, in hundredths.
    pub ss_stars: Option<u32>,
    /// Number of lighting events.
    pub events: u32,
    /// The mapper's own name for the difficulty.
    pub label: Option<String>,
    pub characteristic: Characteristic,
    pub difficulty: DifficultyLevel,
}

/// What contracts say of a [`MapDetail`].
pub struct MapDetailView {
    pub njs: int,
    pub nps: int,
    pub notes: nat,
    pub bombs: nat,
    pub obstacles: nat,
    pub bl_stars: Option<nat>,
    pub ss_stars: Option<nat>,
    pub events: nat,
    pub label: Option<Seq<char>>,
    pub characteristic: Characteristic,
    pub difficulty: DifficultyLevel,
}

/// An optional count as an optional natural number.
pub open spec fn opt_nat(o: Option<u32>) -> Option<nat> {
    match o {
        Some(n) => Some(n as nat),
        None => None,
    }
}

impl View for MapDetail {
    type V = MapDetailView;

    open spec fn view(&self) -> MapDetailView {
        MapDetailView {
            njs: self.njs as int,
            nps: self.nps as int,
            notes: self.notes as nat,
            bombs: self.bombs as nat,
            obstacles: self.obstacles as nat,
            bl_stars: opt_nat(self.bl_stars),
            ss_stars: opt_nat(self.ss_stars),
            events: self.events as nat,
            label: opt_text(self.label),
            characteristic: self.characteristic,
            difficulty: self.difficulty,
        }
    }
}

/// One published build of a map.
#[derive(Debug, PartialEq, Eq)]
pub struct MapVersion {
    /// The difficulties, in the order of the map file.
    pub diffs: Vec<MapDetail>,
    pub cover_url: String,
    pub download_url: String,
}

/// What contracts say of a [`MapVersion`].
pub struct MapVersionView {
    pub diffs: Seq<MapDetailView>,
    pub cover_url: Seq<char>,
    pub download_url: Seq<char>,
}

impl View for MapVersion {
    type V = MapVersionView;

    open spec fn view(&self) -> MapVersionView {
        MapVersionView {
            diffs: Seq::new(self.diffs@.len(), |i: int| self.diffs@[i]@),
            cover_url: self.cover_url@,
            download_url: self.download_url@,
        }
    }
}

/// A BeatSaver account.
#[derive(Debug, PartialEq, Eq)]
pub struct UserDetail {
    pub name: String,
    pub id: i32,
    /// Address of the avatar picture.
    pub avatar: String,
    pub verified_mapper: bool,
}

/// What contracts say of a [`UserDetail`].
pub struct UserDetailView {
    pub name: Seq<char>,
    pub id: int,
    pub avatar: Seq<char>,
    pub verified_mapper: bool,
}

impl View for UserDetail {
    type V = UserDetailView;

    open spec fn view(&self) -> UserDetailView {
        UserDetailView {
            name: self.name@,
            id: self.id as int,
            avatar: self.avatar@,
            verified_mapper: self.verified_mapper,
        }
    }
}

/// Votes on a map.
#[derive(Clone, Copy, Debug, PartialEq, Eq)]
pub struct MapStats {
    pub upvotes: u32,
    pub downvotes: u32,
    /// The vote score in hundredths of a percent: `9200` stands for 92.00%.
    pub score: u32,
}

/// A map as the remote service describes it.
#[derive(Debug, PartialEq, Eq)]
pub struct BSMap {
    pub id: String,
    pub name: String,
    pub description: String,
    pub metadata: MapDetailMetadata,
    /// Time of upload, in seconds since the Unix epoch.
    pub uploaded: i64,
    pub versions: Vec<MapVersion>,
    pub uploader: UserDetail,
    pub collaborators: Option<Vec<UserDetail>>,
    pub stats: MapStats,
    /// Ranked on ScoreSaber.
    pub ss_ranked: bool,
    /// Ranked on BeatLeader.
    pub bl_ranked: bool,
    /// Time of curation, in seconds since the Unix epoch.
    pub curated_at: Option<i64>,
}

/// What contracts say of a [`BSMap`].
pub struct BSMapView {
    pub id: Seq<char>,
    pub name: Seq<char>,
    pub description: Seq<char>,
    pub metadata: MapDetailMetadataView,
    pub uploaded: int,
    pub versions: Seq<MapVersionView>,
    pub uploader: UserDetailView,
    pub collaborators: Option<Seq<UserDetailView>>,
    pub upvotes: nat,
    pub downvotes: nat,
    pub score: nat,
    pub ss_ranked: bool,
    pub bl_ranked: bool,
    pub curated: bool,
}

impl View for BSMap {
    type V = BSMapView;

    open spec fn view(&self) -> BSMapView {
        BSMapView {
            id: self.id@,
            name: self.name@,
            description: self.description@,
            metadata: self.metadata@,
            uploaded: self.uploaded as int,
            versions: Seq::new(self.versions@.len(), |i: int| self.versions@[i]@),
            uploader: self.uploader@,
            collaborators: match self.collaborators {
                Some(users) => Some(Seq::new(users@.len(), |i: int| users@[i]@)),
                None => None,
            },
            upvotes: self.stats.upvotes as nat,
            downvotes: self.stats.downvotes as nat,
            score: self.stats.score as nat,
            ss_ranked: self.ss_ranked,
            bl_ranked: self.bl_ranked,
            curated: self.curated_at is Some,
        }
    }
}

impl Clone for MapDetailMetadata {
    fn clone(&self) -> (copy: Self)
        ensures
            copy@ == self@,
    {
        MapDetailMetadata {
            bpm: self.bpm,
            duration: self.duration,
            song_name: self.song_name.clone(),
            song_sub_name: self.song_sub_name.clone(),
            song_author_name: self.song_author_name.clone(),
            level_author_name: self.level_author_name.clone(),
        }
    }
}

impl Clone for MapDetail {
    fn clone(&self) -> (copy: Self)
        ensures
            copy@ == self@,
    {
        MapDetail {
            njs: self.njs,
            nps: self.nps,
            notes: self.notes,
            bombs: self.bombs,
            obstacles: self.obstacles,
            bl_stars: self.bl_stars,
            ss_stars: self.ss_stars,
            events: self.events,
            label: match &self.label {
                Some(label) => Some(label.clone()),
                None => None,
            },
            characteristic: self.characteristic,
            difficulty: self.difficulty,
        }
    }
}

impl Clone for MapVersion {
    fn clone(&self) -> (copy: Self)
        ensures
            copy@ == self@,
    {
        let mut diffs: Vec<MapDetail> = Vec::new();
        let mut i: usize = 0;
        while i < self.diffs.len()
            invariant
                i <= self.diffs.len(),
                diffs@.len() == i,
                forall|j: int| 0 <= j < i ==> (#[trigger] diffs@[j])@ == self.diffs@[j]@,
            decreases self.diffs.len() - i,
        {
            diffs.push(self.diffs[i].clone());
            i += 1;
        }
        let copy: MapVersion = MapVersion {
            diffs,
            cover_url: self.cover_url.clone(),
            download_url: self.download_url.clone(),
        };
        assert(copy@.diffs =~= self@.diffs);
        copy
    }
}

impl Clone for UserDetail {
    fn clone(&self) -> (copy: Self)
        ensures
            copy@ == self@,
    {
        UserDetail {
            name: self.name.clone(),
            id: self.id,
            avatar: self.avatar.clone(),
            verified_mapper: self.verified_mapper,
        }
    }
}

/// A copy of a list of accounts.
fn copy_users(users: &Vec<UserDetail>) -> (copy: Vec<UserDetail>)
    ensures
        copy@.len() == users@.len(),
        forall|j: int| 0 <= j < users@.len() ==> (#[trigger] copy@[j])@ == users@[j]@,
{
    let mut copy: Vec<UserDetail> = Vec::new();
    let mut i: usize = 0;
    while i < users.len()
        invariant
            i <= users.len(),
            copy@.len() == i,
            forall|j: int| 0 <= j < i ==> (#[trigger] copy@[j])@ == users@[j]@,
        decreases users.len() - i,
    {
        copy.push(users[i].clone());
        i += 1;
    }
    copy
}

impl Clone for BSMap {
    fn clone(&self) -> (copy: Self)
        ensures
            copy@ == self@,
    {
        let mut versions: Vec<MapVersion> = Vec::new();
        let mut i: usize = 0;
        while i < self.versions.len()
            invariant
                i <= self.versions.len(),
                versions@.len() == i,
                forall|j: int| 0 <= j < i ==> (#[trigger] versions@[j])@ == self.versions@[j]@,
            decreases self.versions.len() - i,
        {
            versions.push(self.versions[i].clone());
            i += 1;
        }
        let collaborators: Option<Vec<UserDetail>> = match &self.collaborators {
            Some(users) => Some(copy_users(users)),
            None => None,
        };
        let copy: BSMap = BSMap {
            id: self.id.clone(),
            name: self.name.clone(),
            description: self.description.clone(),
            metadata: self.metadata.clone(),
            uploaded: self.uploaded,
            versions,
            uploader: self.uploader.clone(),
            collaborators,
            stats: self.stats,
            ss_ranked: self.ss_ranked,
            bl_ranked: self.bl_ranked,
            curated_at: self.curated_at,
        };
        assert(copy@.versions =~= self@.versions);
        assert(copy@.collaborators == self@.collaborators) by {
            if let Some(users) = self.collaborators {
                assert(copy@.collaborators->0 =~= self@.collaborators->0);
            }
        }
        copy
    }
}

impl BSMap {
    /// Whether the map has a version to present. A map without one cannot be
    /// rendered.
    pub fn has_version(&self) -> (has: bool)
        ensures
            has == (self@.versions.len() > 0),
    {
        self.versions.len() > 0
    }
}

} // verus!
