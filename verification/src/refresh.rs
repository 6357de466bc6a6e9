//! Refreshing the known peers from storage.
use vstd::prelude::*;

use crate::config::ConfigModel;
use crate::peers::{AdvertisementModel, IrohNodeAdvertisement};

verus! {

/// What was read under a storage key.
#[derive(Debug)]
pub enum Reading {
    /// This advertisement.
    Advertised(IrohNodeAdvertisement),
    /// Nothing is stored there.
    Missing,
    /// Reading failed, or what is stored there is no advertisement.
    Unreadable,
}

impl Reading {
    /// The advertisement, where there is one: a reading that failed counts as none.
    pub open spec fn advertised(self) -> Option<AdvertisementModel> {
        match self {
            Reading::Advertised(ad) => Some(ad@),
            Reading::Missing => None,
            Reading::Unreadable => None,
        }
    }
}

/// The advertisements among what was read under each of a list of storage keys.
pub open spec fn read_ads(readings: Seq<Reading>) -> Seq<Option<AdvertisementModel>> {
    readings.map_values(|reading: Reading| reading.advertised())
}

/// Takes the advertisements out of what was read, in their order.
pub(crate) fn take_ads(readings: Vec<Reading>) -> (ads: Vec<Option<IrohNodeAdvertisement>>)
    ensures
        crate::peers::advertisements(ads@) == read_ads(readings@),
{
    let mut ads: Vec<Option<IrohNodeAdvertisement>> = Vec::new();
    let ghost entries = readings@;
    for reading in it: readings
        invariant
            it.seq() == entries,
            ads@.len() == it.index(),
            forall|i: int|
                0 <= i < ads@.len() ==> crate::peers::advertisements(ads@)[i] == (
                #[trigger] read_ads(entries)[i]),
    {
        let ghost before = ads@;
        let ghost i = it.index() as int;
        assert(read_ads(entries)[i] == reading.advertised());
        match reading {
            Reading::Advertised(ad) => ads.push(Some(ad)),
            Reading::Missing => ads.push(None),
            Reading::Unreadable => ads.push(None),
        }
        assert forall|j: int| 0 <= j < ads@.len() implies crate::peers::advertisements(ads@)[j] == (
        #[trigger] read_ads(entries)[j]) by {
            if j < i {
                assert(crate::peers::advertisements(before)[j] == read_ads(entries)[j]);
                assert(ads@[j] == before[j]);
            }
        }
    }
    assert(crate::peers::advertisements(ads@) =~= read_ads(readings@));
    ads
}

/// What came of the last thing that was to be done for a refresh.
#[derive(Debug)]
pub enum RefreshEvent {
    /// The refresh begins.
    Started,
    /// These storage keys are listed under the prefix.
    Listed(Vec<String>),
    /// The keys could not be listed.
    ListFailed,
    /// This was read under the keys, in their order.
    Read(Vec<Reading>),
}

/// What to do next for a refresh.
#[derive(Debug)]
pub enum RefreshStep {
    /// List the storage keys under this prefix.
    List(String),
    /// Read what is stored under each of these keys.
    Read(Vec<String>),
    /// The known peers are replaced.
    Done,
    /// Give the refresh up, with the error that listing the keys gave.
    Fail,
}

/// What to do next for a refresh, with text as character sequences.
pub enum RefreshStepModel {
    List(Seq<char>),
    Read(Seq<Seq<char>>),
    Done,
    Fail,
}

impl View for RefreshStep {
    type V = RefreshStepModel;

    open spec fn view(&self) -> RefreshStepModel {
        match self {
            RefreshStep::List(prefix) => RefreshStepModel::List(prefix@),
            RefreshStep::Read(keys) => RefreshStepModel::Read(crate::peers::texts(keys@)),
            RefreshStep::Done => RefreshStepModel::Done,
            RefreshStep::Fail => RefreshStepModel::Fail,
        }
    }
}

/// How a refresh goes on after an event: of the keys under the prefix those of other nodes are
/// read. Only a failed listing makes it fail.
pub open spec fn refresh_next(config: ConfigModel, event: RefreshEvent) -> RefreshStepModel {
    match event {
        RefreshEvent::Started => RefreshStepModel::List(config.storage_prefix),
        RefreshEvent::Listed(keys) => RefreshStepModel::Read(
            crate::peers::peer_keys_of(
                config.storage_prefix,
                config.node_name,
                crate::peers::texts(keys@),
            ),
        ),
        RefreshEvent::ListFailed => RefreshStepModel::Fail,
        RefreshEvent::Read(_) => RefreshStepModel::Done,
    }
}

}
