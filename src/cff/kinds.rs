//! Kinds of works and references, and publication statuses.

use vstd::prelude::*;

verus! {

/// Types of works: software or a dataset.
#[derive(Debug, Clone, Copy, PartialEq, Eq, Hash, Structural)]
pub enum WorkType {
    /// `software`
    Software,
    /// `dataset`
    Dataset,
}

/// The text a work type is written as.
pub open spec fn work_type_text(x: WorkType) -> Seq<char> {
    match x {
        WorkType::Software => "software"@,
        WorkType::Dataset => "dataset"@,
    }
}

impl WorkType {
    /// The text the kind is written as.
    pub fn as_str(&self) -> (r: &'static str)
        ensures
            r@ == work_type_text(*self),
    {
        match self {
            WorkType::Software => "software",
            WorkType::Dataset => "dataset",
        }
    }

    /// The kind a text names; `None` when it names none.
    pub fn from_text(s: &str) -> (r: Option<WorkType>)
        ensures
            r matches Some(x) ==> work_type_text(x) == s@,
            r is None ==> forall|x: WorkType| work_type_text(x) != s@,
    {
        if crate::text::same_text(s, "software") {
            Some(WorkType::Software)
        } else if crate::text::same_text(s, "dataset") {
            Some(WorkType::Dataset)
        } else {
            None
        }
    }
}

/// Publication status of a referenced work.
#[derive(Debug, Clone, Copy, PartialEq, Eq, Hash, Structural)]
pub enum PublicationStatus {
    /// `abstract`
    Abstract,
    /// `advance-online`
    AdvanceOnline,
    /// `in-preparation`
    InPreparation,
    /// `in-press`
    InPress,
    /// `preprint`
    Preprint,
    /// `submitted`
    Submitted,
}

/// The text a publication status is written as.
pub open spec fn publication_status_text(x: PublicationStatus) -> Seq<char> {
    match x {
        PublicationStatus::Abstract => "abstract"@,
        PublicationStatus::AdvanceOnline => "advance-online"@,
        PublicationStatus::InPreparation => "in-preparation"@,
        PublicationStatus::InPress => "in-press"@,
        PublicationStatus::Preprint => "preprint"@,
        PublicationStatus::Submitted => "submitted"@,
    }
}

impl PublicationStatus {
    /// The text the kind is written as.
    pub fn as_str(&self) -> (r: &'static str)
        ensures
            r@ == publication_status_text(*self),
    {
        match self {
            PublicationStatus::Abstract => "abstract",
            PublicationStatus::AdvanceOnline => "advance-online",
            PublicationStatus::InPreparation => "in-preparation",
            PublicationStatus::InPress => "in-press",
            PublicationStatus::Preprint => "preprint",
            PublicationStatus::Submitted => "submitted",
        }
    }

    /// The kind a text names; `None` when it names none.
    pub fn from_text(s: &str) -> (r: Option<PublicationStatus>)
        ensures
            r matches Some(x) ==> publication_status_text(x) == s@,
            r is None ==> forall|x: PublicationStatus| publication_status_text(x) != s@,
    {
        if crate::text::same_text(s, "abstract") {
            Some(PublicationStatus::Abstract)
        } else if crate::text::same_text(s, "advance-online") {
            Some(PublicationStatus::AdvanceOnline)
        } else if crate::text::same_text(s, "in-preparation") {
            Some(PublicationStatus::InPreparation)
        } else if crate::text::same_text(s, "in-press") {
            Some(PublicationStatus::InPress)
        } else if crate::text::same_text(s, "preprint") {
            Some(PublicationStatus::Preprint)
        } else if crate::text::same_text(s, "submitted") {
            Some(PublicationStatus::Submitted)
        } else {
            None
        }
    }
}

/// Types of referenced works.
#[derive(Debug, Clone, Copy, PartialEq, Eq, Hash, Structural)]
pub enum RefType {
    /// `art`
    Art,
    /// `article`
    Article,
    /// `audiovisual`
    Audiovisual,
    /// `bill`
    Bill,
    /// `blog`
    Blog,
    /// `book`
    Book,
    /// `catalogue`
    Catalogue,
    /// `conference-paper`
    ConferencePaper,
    /// `conference`
    Conference,
    /// `data`
    Data,
    /// `database`
    Database,
    /// `dictionary`
    Dictionary,
    /// `edited-work`
    EditedWork,
    /// `encyclopedia`
    Encyclopedia,
    /// `film-broadcast`
    FilmBroadcast,
    /// `generic`
    Generic,
    /// `government-document`
    GovernmentDocument,
    /// `grant`
    Grant,
    /// `hearing`
    Hearing,
    /// `historical-work`
    HistoricalWork,
    /// `legal-case`
    LegalCase,
    /// `legal-rule`
    LegalRule,
    /// `magazine-article`
    MagazineArticle,
    /// `manual`
    Manual,
    /// `map`
    GeographicMap,
    /// `multimedia`
    Multimedia,
    /// `music`
    Music,
    /// `newspaper-article`
    NewspaperArticle,
    /// `pamphlet`
    Pamphlet,
    /// `patent`
    Patent,
    /// `personal-communication`
    PersonalCommunication,
    /// `proceedings`
    Proceedings,
    /// `report`
    Report,
    /// `serial`
    Serial,
    /// `slides`
    Slides,
    /// `software-code`
    SoftwareCode,
    /// `software-container`
    SoftwareContainer,
    /// `software-executable`
    SoftwareExecutable,
    /// `software-virtual-machine`
    SoftwareVirtualMachine,
    /// `software`
    Software,
    /// `sound-recording`
    SoundRecording,
    /// `standard`
    Standard,
    /// `statute`
    Statute,
    /// `thesis`
    Thesis,
    /// `unpublished`
    Unpublished,
    /// `video`
    Video,
    /// `website`
    Website,
}

/// The text a reference type is written as.
pub open spec fn ref_type_text(x: RefType) -> Seq<char> {
    match x {
        RefType::Art => "art"@,
        RefType::Article => "article"@,
        RefType::Audiovisual => "audiovisual"@,
        RefType::Bill => "bill"@,
        RefType::Blog => "blog"@,
        RefType::Book => "book"@,
        RefType::Catalogue => "catalogue"@,
        RefType::ConferencePaper => "conference-paper"@,
        RefType::Conference => "conference"@,
        RefType::Data => "data"@,
        RefType::Database => "database"@,
        RefType::Dictionary => "dictionary"@,
        RefType::EditedWork => "edited-work"@,
        RefType::Encyclopedia => "encyclopedia"@,
        RefType::FilmBroadcast => "film-broadcast"@,
        RefType::Generic => "generic"@,
        RefType::GovernmentDocument => "government-document"@,
        RefType::Grant => "grant"@,
        RefType::Hearing => "hearing"@,
        RefType::HistoricalWork => "historical-work"@,
        RefType::LegalCase => "legal-case"@,
        RefType::LegalRule => "legal-rule"@,
        RefType::MagazineArticle => "magazine-article"@,
        RefType::Manual => "manual"@,
        RefType::GeographicMap => "map"@,
        RefType::Multimedia => "multimedia"@,
        RefType::Music => "music"@,
        RefType::NewspaperArticle => "newspaper-article"@,
        RefType::Pamphlet => "pamphlet"@,
        RefType::Patent => "patent"@,
        RefType::PersonalCommunication => "personal-communication"@,
        RefType::Proceedings => "proceedings"@,
        RefType::Report => "report"@,
        RefType::Serial => "serial"@,
        RefType::Slides => "slides"@,
        RefType::SoftwareCode => "software-code"@,
        RefType::SoftwareContainer => "software-container"@,
        RefType::SoftwareExecutable => "software-executable"@,
        RefType::SoftwareVirtualMachine => "software-virtual-machine"@,
        RefType::Software => "software"@,
        RefType::SoundRecording => "sound-recording"@,
        RefType::Standard => "standard"@,
        RefType::Statute => "statute"@,
        RefType::Thesis => "thesis"@,
        RefType::Unpublished => "unpublished"@,
        RefType::Video => "video"@,
        RefType::Website => "website"@,
    }
}

impl RefType {
    /// The text the kind is written as.
    pub fn as_str(&self) -> (r: &'static str)
        ensures
            r@ == ref_type_text(*self),
    {
        match self {
            RefType::Art => "art",
            RefType::Article => "article",
            RefType::Audiovisual => "audiovisual",
            RefType::Bill => "bill",
            RefType::Blog => "blog",
            RefType::Book => "book",
            RefType::Catalogue => "catalogue",
            RefType::ConferencePaper => "conference-paper",
            RefType::Conference => "conference",
            RefType::Data => "data",
            RefType::Database => "database",
            RefType::Dictionary => "dictionary",
            RefType::EditedWork => "edited-work",
            RefType::Encyclopedia => "encyclopedia",
            RefType::FilmBroadcast => "film-broadcast",
            RefType::Generic => "generic",
            RefType::GovernmentDocument => "government-document",
            RefType::Grant => "grant",
            RefType::Hearing => "hearing",
            RefType::HistoricalWork => "historical-work",
            RefType::LegalCase => "legal-case",
            RefType::LegalRule => "legal-rule",
            RefType::MagazineArticle => "magazine-article",
            RefType::Manual => "manual",
            RefType::GeographicMap => "map",
            RefType::Multimedia => "multimedia",
            RefType::Music => "music",
            RefType::NewspaperArticle => "newspaper-article",
            RefType::Pamphlet => "pamphlet",
            RefType::Patent => "patent",
            RefType::PersonalCommunication => "personal-communication",
            RefType::Proceedings => "proceedings",
            RefType::Report => "report",
            RefType::Serial => "serial",
            RefType::Slides => "slides",
            RefType::SoftwareCode => "software-code",
            RefType::SoftwareContainer => "software-container",
            RefType::SoftwareExecutable => "software-executable",
            RefType::SoftwareVirtualMachine => "software-virtual-machine",
            RefType::Software => "software",
            RefType::SoundRecording => "sound-recording",
            RefType::Standard => "standard",
            RefType::Statute => "statute",
            RefType::Thesis => "thesis",
            RefType::Unpublished => "unpublished",
            RefType::Video => "video",
            RefType::Website => "website",
        }
    }

    /// The kind a text names; `None` when it names none.
    pub fn from_text(s: &str) -> (r: Option<RefType>)
        ensures
            r matches Some(x) ==> ref_type_text(x) == s@,
            r is None ==> forall|x: RefType| ref_type_text(x) != s@,
    {
        if crate::text::same_text(s, "art") {
            Some(RefType::Art)
        } else if crate::text::same_text(s, "article") {
            Some(RefType::Article)
        } else if crate::text::same_text(s, "audiovisual") {
            Some(RefType::Audiovisual)
        } else if crate::text::same_text(s, "bill") {
            Some(RefType::Bill)
        } else if crate::text::same_text(s, "blog") {
            Some(RefType::Blog)
        } else if crate::text::same_text(s, "book") {
            Some(RefType::Book)
        } else if crate::text::same_text(s, "catalogue") {
            Some(RefType::Catalogue)
        } else if crate::text::same_text(s, "conference-paper") {
            Some(RefType::ConferencePaper)
        } else if crate::text::same_text(s, "conference") {
            Some(RefType::Conference)
        } else if crate::text::same_text(s, "data") {
            Some(RefType::Data)
        } else if crate::text::same_text(s, "database") {
            Some(RefType::Database)
        } else if crate::text::same_text(s, "dictionary") {
            Some(RefType::Dictionary)
        } else if crate::text::same_text(s, "edited-work") {
            Some(RefType::EditedWork)
        } else if crate::text::same_text(s, "encyclopedia") {
            Some(RefType::Encyclopedia)
        } else if crate::text::same_text(s, "film-broadcast") {
            Some(RefType::FilmBroadcast)
        } else if crate::text::same_text(s, "generic") {
            Some(RefType::Generic)
        } else if crate::text::same_text(s, "government-document") {
            Some(RefType::GovernmentDocument)
        } else if crate::text::same_text(s, "grant") {
            Some(RefType::Grant)
        } else if crate::text::same_text(s, "hearing") {
            Some(RefType::Hearing)
        } else if crate::text::same_text(s, "historical-work") {
            Some(RefType::HistoricalWork)
        } else if crate::text::same_text(s, "legal-case") {
            Some(RefType::LegalCase)
        } else if crate::text::same_text(s, "legal-rule") {
            Some(RefType::LegalRule)
        } else if crate::text::same_text(s, "magazine-article") {
            Some(RefType::MagazineArticle)
        } else if crate::text::same_text(s, "manual") {
            Some(RefType::Manual)
        } else if crate::text::same_text(s, "map") {
            Some(RefType::GeographicMap)
        } else if crate::text::same_text(s, "multimedia") {
            Some(RefType::Multimedia)
        } else if crate::text::same_text(s, "music") {
            Some(RefType::Music)
        } else if crate::text::same_text(s, "newspaper-article") {
            Some(RefType::NewspaperArticle)
        } else if crate::text::same_text(s, "pamphlet") {
            Some(RefType::Pamphlet)
        } else if crate::text::same_text(s, "patent") {
            Some(RefType::Patent)
        } else if crate::text::same_text(s, "personal-communication") {
            Some(RefType::PersonalCommunication)
        } else if crate::text::same_text(s, "proceedings") {
            Some(RefType::Proceedings)
        } else if crate::text::same_text(s, "report") {
            Some(RefType::Report)
        } else if crate::text::same_text(s, "serial") {
            Some(RefType::Serial)
        } else if crate::text::same_text(s, "slides") {
            Some(RefType::Slides)
        } else if crate::text::same_text(s, "software-code") {
            Some(RefType::SoftwareCode)
        } else if crate::text::same_text(s, "software-container") {
            Some(RefType::SoftwareContainer)
        } else if crate::text::same_text(s, "software-executable") {
            Some(RefType::SoftwareExecutable)
        } else if crate::text::same_text(s, "software-virtual-machine") {
            Some(RefType::SoftwareVirtualMachine)
        } else if crate::text::same_text(s, "software") {
            Some(RefType::Software)
        } else if crate::text::same_text(s, "sound-recording") {
            Some(RefType::SoundRecording)
        } else if crate::text::same_text(s, "standard") {
            Some(RefType::Standard)
        } else if crate::text::same_text(s, "statute") {
            Some(RefType::Statute)
        } else if crate::text::same_text(s, "thesis") {
            Some(RefType::Thesis)
        } else if crate::text::same_text(s, "unpublished") {
            Some(RefType::Unpublished)
        } else if crate::text::same_text(s, "video") {
            Some(RefType::Video)
        } else if crate::text::same_text(s, "website") {
            Some(RefType::Website)
        } else {
            None
        }
    }
}

impl Default for RefType {
    fn default() -> (r: Self)
        ensures
            r == RefType::Generic,
    {
        RefType::Generic
    }
}

} // verus!
