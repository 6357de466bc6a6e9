//! Publishing a node's own advertisement: to storage, then to the address file.
use vstd::prelude::*;

use crate::config::ConfigModel;
use crate::peers::{AdvertisementModel, IrohNodeAdvertisement};

verus! {

/// Why a publication is given up.
#[derive(Debug, Clone, Copy, PartialEq, Eq, Structural)]
pub enum PublishError {
    /// The advertisement could not be put into storage.
    PutFailed,
    /// The advertisement could not be serialized for the address file.
    Unencodable,
}

impl PublishError {
    /// The sentence that tells an operator about the error.
    pub open spec fn message_spec(self) -> Seq<char> {
        match self {
            PublishError::PutFailed => "storage put failed"@,
            PublishError::Unencodable => "serialize local addr"@,
        }
    }

    /// The sentence that tells an operator about the error.
    pub fn message(&self) -> (s: String)
        ensures
            s@ == self.message_spec(),
    {
        match self {
            PublishError::PutFailed => "storage put failed".to_owned(),
            PublishError::Unencodable => "serialize local addr".to_owned(),
        }
    }
}

/// What came of the last thing that was to be done for a publication.
#[derive(Debug)]
pub enum PublishEvent {
    /// The advertisement is in storage.
    Stored,
    PutFailed,
    /// Creating the directory of the address file was tried, with success or without.
    DirectoryTried,
    /// The advertisement is serialized to this text.
    FileEncoded(String),
    EncodingFailed,
    /// Writing the address file was tried, with success or without.
    FileTried,
}

/// What to do next for a publication.
#[derive(Debug)]
pub enum PublishStep {
    /// Put this advertisement into storage under this key.
    Put(String, IrohNodeAdvertisement),
    /// Create the directory that the file of this path lies in, if it has one.
    CreateDirectory(String),
    /// Serialize this advertisement for the address file.
    EncodeFile(IrohNodeAdvertisement),
    /// Make this text, the second one, the whole content of the file of this path.
    WriteFile(String, String),
    /// All is done.
    Done,
    /// Give the publication up.
    Fail(PublishError),
}

/// What to do next for a publication, with text as character sequences.
pub enum PublishStepModel {
    Put(Seq<char>, AdvertisementModel),
    CreateDirectory(Seq<char>),
    EncodeFile(AdvertisementModel),
    WriteFile(Seq<char>, Seq<char>),
    Done,
    Fail(PublishError),
}

impl View for PublishStep {
    type V = PublishStepModel;

    open spec fn view(&self) -> PublishStepModel {
        match self {
            PublishStep::Put(key, ad) => PublishStepModel::Put(key@, ad@),
            PublishStep::CreateDirectory(path) => PublishStepModel::CreateDirectory(path@),
            PublishStep::EncodeFile(ad) => PublishStepModel::EncodeFile(ad@),
            PublishStep::WriteFile(path, text) => PublishStepModel::WriteFile(path@, text@),
            PublishStep::Done => PublishStepModel::Done,
            PublishStep::Fail(err) => PublishStepModel::Fail(*err),
        }
    }
}

/// How a publication begins: the advertisement is put under the node's own key.
pub open spec fn publish_start(config: ConfigModel, ad: AdvertisementModel) -> PublishStepModel {
    PublishStepModel::Put(
        crate::peers::key_of_node(config.storage_prefix, config.node_name),
        ad,
    )
}

/// How the publication of an advertisement goes on after an event. Once the advertisement is
/// stored it goes to the address file too, where one is configured; what becomes of the
/// directory and of the file does not matter.
pub open spec fn publish_next(
    config: ConfigModel,
    ad: AdvertisementModel,
    event: PublishEvent,
) -> PublishStepModel {
    match event {
        PublishEvent::PutFailed => PublishStepModel::Fail(PublishError::PutFailed),
        PublishEvent::EncodingFailed => PublishStepModel::Fail(PublishError::Unencodable),
        PublishEvent::FileTried => PublishStepModel::Done,
        PublishEvent::Stored => match config.local_addr_file {
            Some(path) => PublishStepModel::CreateDirectory(path),
            None => PublishStepModel::Done,
        },
        PublishEvent::DirectoryTried => PublishStepModel::EncodeFile(ad),
        PublishEvent::FileEncoded(text) => match config.local_addr_file {
            Some(path) => PublishStepModel::WriteFile(path, text@),
            None => PublishStepModel::Done,
        },
    }
}

/// Whether an event can come of what was to be done for a publication.
pub open spec fn answers_publish(step: PublishStepModel, event: PublishEvent) -> bool {
    match event {
        PublishEvent::Stored | PublishEvent::PutFailed => step is Put,
        PublishEvent::DirectoryTried => step is CreateDirectory,
        PublishEvent::FileEncoded(_) | PublishEvent::EncodingFailed => step is EncodeFile,
        PublishEvent::FileTried => step is WriteFile,
    }
}

/// What was to be done for the publication of an advertisement after the first `n` events.
pub open spec fn publish_at(
    config: ConfigModel,
    ad: AdvertisementModel,
    events: Seq<PublishEvent>,
    n: int,
) -> PublishStepModel {
    if n <= 0 {
        publish_start(config, ad)
    } else {
        publish_next(config, ad, events[n - 1])
    }
}

/// Whether each event comes of what was to be done before it.
pub open spec fn publish_run(
    config: ConfigModel,
    ad: AdvertisementModel,
    events: Seq<PublishEvent>,
) -> bool {
    forall|i: int|
        0 <= i < events.len() ==> answers_publish(
            publish_at(config, ad, events, i),
            #[trigger] events[i],
        )
}

/// Whether something is to be done for the address file.
pub open spec fn touches_file(step: PublishStepModel) -> bool {
    step is CreateDirectory || step is EncodeFile || step is WriteFile
}

/// A failed put ends the publication with its error: nothing is done for the address file.
pub proof fn law_failed_put_ends_the_publication(
    config: ConfigModel,
    ad: AdvertisementModel,
    events: Seq<PublishEvent>,
    n: int,
)
    requires
        publish_run(config, ad, events),
        events.len() > 0,
        events[0] == PublishEvent::PutFailed,
    ensures
        events.len() == 1,
        publish_at(config, ad, events, 1) == PublishStepModel::Fail(PublishError::PutFailed),
        0 <= n <= events.len() ==> !touches_file(publish_at(config, ad, events, n)),
{
    if events.len() > 1 {
        assert(answers_publish(publish_at(config, ad, events, 1), events[1]));
    }
}

/// The address file is written where one is configured, and only there. Its directory is
/// created first, and what is written is made from the very advertisement that was stored. With
/// no file configured the publication is done when the advertisement is stored.
pub proof fn law_address_file_follows_the_put(
    config: ConfigModel,
    ad: AdvertisementModel,
    events: Seq<PublishEvent>,
    n: int,
)
    requires
        publish_run(config, ad, events),
        0 <= n <= events.len(),
    ensures
        touches_file(publish_at(config, ad, events, n)) ==> config.local_addr_file is Some && n >= 1
            && events[0] == PublishEvent::Stored,
        publish_at(config, ad, events, n) matches PublishStepModel::CreateDirectory(path) ==> n == 1
            && Some(path) == config.local_addr_file,
        publish_at(config, ad, events, n) matches PublishStepModel::EncodeFile(written) ==> n == 2
            && written == ad,
        publish_at(config, ad, events, n) matches PublishStepModel::WriteFile(path, text) ==> n == 3
            && Some(path) == config.local_addr_file && (events[2] matches PublishEvent::FileEncoded(
            encoded,
        ) && encoded@ == text),
        publish_at(config, ad, events, n) is Done ==> events.len() == n && events[0]
            == PublishEvent::Stored && n == (if config.local_addr_file is Some {
            4int
        } else {
            1int
        }),
    decreases n,
{
    if n > 0 {
        assert(answers_publish(publish_at(config, ad, events, n - 1), events[n - 1]));
        law_address_file_follows_the_put(config, ad, events, n - 1);
        if n < events.len() {
            assert(answers_publish(publish_at(config, ad, events, n), events[n]));
        }
    }
}

/// A publication fails only where the advertisement could not be stored, or not be serialized:
/// a directory that cannot be created or a file that cannot be written is no failure.
pub proof fn law_address_file_is_no_failure(
    config: ConfigModel,
    ad: AdvertisementModel,
    event: PublishEvent,
)
    ensures
        publish_next(config, ad, event) == PublishStepModel::Fail(PublishError::PutFailed) <==> event
            == PublishEvent::PutFailed,
        publish_next(config, ad, event) == PublishStepModel::Fail(PublishError::Unencodable)
            <==> event == PublishEvent::EncodingFailed,
        publish_next(config, ad, PublishEvent::DirectoryTried) == PublishStepModel::EncodeFile(ad),
        publish_next(config, ad, PublishEvent::FileTried) is Done,
{
}

/// Whatever the configuration, a publication begins by putting the given advertisement under the
/// storage prefix followed by the name of the node.
pub proof fn law_node_is_put_under_its_name(
    step: PublishStep,
    config: ConfigModel,
    ad: AdvertisementModel,
)
    requires
        step@ == publish_start(config, ad),
    ensures
        step matches PublishStep::Put(key, put) && key@ == config.storage_prefix + config.node_name
            && put.node_name@ == ad.node_name && put.endpoint_addr == ad.endpoint_addr
            && put.updated_at_unix == ad.updated_at_unix,
{
}

/// A publication that is stored goes to the address file where one is configured, step by step,
/// and is done at once where none is. A failed put and a failed encoding are its only errors.
pub proof fn law_publication_goes_on(
    step: PublishStep,
    config: ConfigModel,
    ad: IrohNodeAdvertisement,
    event: PublishEvent,
)
    requires
        step@ == publish_next(config, ad@, event),
    ensures
        event is PutFailed ==> step == PublishStep::Fail(PublishError::PutFailed),
        event is EncodingFailed ==> step == PublishStep::Fail(PublishError::Unencodable),
        event is Stored && config.local_addr_file is None ==> step is Done,
        event is Stored && config.local_addr_file is Some ==> (
        step matches PublishStep::CreateDirectory(path) && path@ == config.local_addr_file->0),
        event is DirectoryTried ==> (step matches PublishStep::EncodeFile(written)
            && written.node_name@ == ad.node_name@ && written.endpoint_addr == ad.endpoint_addr
            && written.updated_at_unix == ad.updated_at_unix),
        event matches PublishEvent::FileEncoded(encoded) ==> config.local_addr_file is Some ==> (
        step matches PublishStep::WriteFile(path, text) && path@ == config.local_addr_file->0
            && text@ == encoded@),
        event is FileEncoded && config.local_addr_file is None ==> step is Done,
        event is FileTried ==> step is Done,
{
}

/// Where an address file is configured and neither the put nor the encoding fails, the file is
/// written, after its directory was created and the advertisement encoded, and then all is done.
pub proof fn law_undisturbed_publication_writes_the_file(
    config: ConfigModel,
    ad: AdvertisementModel,
    events: Seq<PublishEvent>,
)
    requires
        config.local_addr_file is Some,
        publish_run(config, ad, events),
        forall|i: int|
            0 <= i < events.len() ==> !((#[trigger] events[i]) is PutFailed) && !(
            events[i] is EncodingFailed),
    ensures
        events.len() >= 3 ==> (publish_at(config, ad, events, 3) matches PublishStepModel::WriteFile(
            path,
            text,
        ) && path == config.local_addr_file->0),
        events.len() >= 4 ==> publish_at(config, ad, events, 4) is Done,
        events.len() <= 4,
{
    assert(events.len() > 0 ==> answers_publish(publish_at(config, ad, events, 0), events[0]) && !(
    events[0] is PutFailed));
    assert(events.len() > 1 ==> answers_publish(publish_at(config, ad, events, 1), events[1]));
    assert(events.len() > 2 ==> answers_publish(publish_at(config, ad, events, 2), events[2]) && !(
    events[2] is EncodingFailed));
    assert(events.len() > 3 ==> answers_publish(publish_at(config, ad, events, 3), events[3]));
    assert(events.len() > 4 ==> answers_publish(publish_at(config, ad, events, 4), events[4]));
}

/// The sentence of a publication error says which part failed.
pub proof fn law_publish_error_sentences()
    ensures
        PublishError::PutFailed.message_spec() == "storage put failed"@,
        PublishError::Unencodable.message_spec() == "serialize local addr"@,
{
}

}
