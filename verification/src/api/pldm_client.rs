//! Loading of images through the firmware update service.

use vstd::prelude::*;

use crate::error::ErrorCode;
use crate::machine;
use crate::machine::{Machine, Progress};
use crate::pldm::daemon::PldmServiceError;
use crate::syscall::dma::AXIAddr;

verus! {

/// The most images that a flash can hold.
pub const MAX_IMAGE_COUNT: u32 = 127;

/// What the update service is doing.
#[derive(Copy, Clone, Debug, PartialEq, Eq, Structural)]
pub enum State {
    NotRunning,
    Initializing,
    Initialized,
    DownloadingHeader,
    HeaderDownloadComplete,
    DownloadingToc,
    TocDownloadComplete,
    ImageDownloadReady,
    DownloadingImage,
    ImageDownloadComplete,
}

/// The result of a verification, by its number.
#[derive(Copy, Clone, Debug, PartialEq, Eq, Structural)]
pub struct VerifyResult(pub u8);

/// The part of the flash that is being downloaded, and how the download ends.
#[derive(Copy, Clone, Debug, PartialEq, Eq, Structural)]
pub struct DownloadCtx {
    pub total_length: usize,
    pub initial_offset: usize,
    pub current_offset: usize,
    pub total_downloaded: usize,
    pub load_address: AXIAddr,
    pub download_complete: bool,
    pub verify_result: VerifyResult,
}

/// What the client and the device of the update service share.
#[derive(Copy, Clone, Debug, PartialEq, Eq, Structural)]
pub struct PldmContext {
    pub state: State,
    pub download: DownloadCtx,
}

/// The sizes of what the flash holds in front of the images: a header, and one
/// entry for each image.
#[derive(Copy, Clone, Debug, PartialEq, Eq, Structural)]
pub struct FlashLayout {
    pub header_size: usize,
    pub image_header_size: usize,
}

/// An entry of the table of contents.
#[derive(Copy, Clone, Debug, PartialEq, Eq, Structural)]
pub struct ImageInfo {
    pub identifier: u32,
    pub offset: u32,
    pub size: u32,
}

/// What the update service is run until.
#[derive(Copy, Clone, Debug, PartialEq, Eq, Structural)]
pub enum Goal {
    /// It has come to a state.
    Reached(State),
    /// An entry of the table of contents is there, or the image is ready.
    TocEntry,
}

/// Whether the update service has been run far enough.
pub open spec fn goal_met_spec(goal: Goal, state: State) -> bool {
    match goal {
        Goal::Reached(target) => state == target,
        Goal::TocEntry => state is TocDownloadComplete || state is ImageDownloadReady,
    }
}

/// Whether the update service has been run far enough.
pub fn goal_met(goal: Goal, pldm: &PldmContext) -> (met: bool)
    ensures
        met == goal_met_spec(goal, pldm.state),
{
    let state = get_pldm_state(pldm);
    match goal {
        Goal::Reached(target) => state == target,
        Goal::TocEntry => state == State::TocDownloadComplete || state
            == State::ImageDownloadReady,
    }
}

/// What the update service is doing.
pub fn get_pldm_state(pldm: &PldmContext) -> (state: State)
    ensures
        state == pldm.state,
{
    pldm.state
}

/// A piece of work for the client.
#[derive(Copy, Clone, Debug, PartialEq, Eq, Structural)]
pub enum ClientWork {
    /// Run the update service until it is stopped or has come far enough.
    RunUntil(Goal),
    /// Read the number of images from the header that was downloaded.
    ReadImageCount,
    /// Read the entry that was downloaded.
    ReadImageInfo,
}

/// What the client asks for. First `pldm` is shared as it is here.
#[derive(Copy, Clone, Debug, PartialEq, Eq, Structural)]
pub struct ClientAsk {
    pub pldm: PldmContext,
    pub work: ClientWork,
}

/// What came of the work.
#[derive(Copy, Clone, Debug, PartialEq, Eq)]
pub enum ClientEvent {
    Ran(Result<(), PldmServiceError>),
    ImageCount(usize),
    ImageInfo(ImageInfo),
}

/// What the client is answered. `pldm` is what is shared after the work.
#[derive(Copy, Clone, Debug, PartialEq, Eq)]
pub struct ClientAnswer {
    pub pldm: PldmContext,
    pub event: ClientEvent,
}

/// The context once a part of the flash is to be downloaded.
pub open spec fn with_range(pldm: PldmContext, offset: usize, length: usize) -> PldmContext {
    PldmContext {
        download: DownloadCtx {
            total_length: length,
            initial_offset: offset,
            current_offset: offset,
            total_downloaded: 0,
            ..pldm.download
        },
        ..pldm
    }
}

fn set_range(pldm: &mut PldmContext, offset: usize, length: usize)
    ensures
        *final(pldm) == with_range(*old(pldm), offset, length),
{
    pldm.download.total_length = length;
    pldm.download.initial_offset = offset;
    pldm.download.current_offset = offset;
    pldm.download.total_downloaded = 0;
}

/// Whether the service was run, and has come to a state.
pub open spec fn came_to(answer: ClientAnswer, target: State) -> bool {
    answer.event is Ran && answer.event->Ran_0 is Ok && answer.pldm.state == target
}

fn has_come_to(answer: &ClientAnswer, target: State) -> (r: bool)
    ensures
        r == came_to(*answer, target),
{
    match answer.event {
        ClientEvent::Ran(Ok(_)) => get_pldm_state(&answer.pldm) == target,
        _ => false,
    }
}

/// A download of the header under way.
#[derive(Copy, Clone, Debug, PartialEq, Eq, Structural)]
pub struct HeaderDownload {
    pub pldm: PldmContext,
    /// Whether the header is there, and the number of images is being read.
    pub complete: bool,
}

/// The context once the header is to be downloaded.
pub open spec fn header_context(pldm: PldmContext, layout: FlashLayout) -> PldmContext {
    with_range(PldmContext { state: State::DownloadingHeader, ..pldm }, 0, layout.header_size)
}

/// Starts to download the header of the flash. A flash of too many images
/// fails.
pub fn pldm_download_header(pldm: PldmContext, layout: FlashLayout) -> (d: HeaderDownload)
    ensures
        d == (HeaderDownload { pldm: header_context(pldm, layout), complete: false }),
{
    let mut pldm = pldm;
    pldm.state = State::DownloadingHeader;
    set_range(&mut pldm, 0, layout.header_size);
    HeaderDownload { pldm, complete: false }
}

impl Machine for HeaderDownload {
    type Ask = ClientAsk;

    type Answer = ClientAnswer;

    type Out = (PldmContext, Result<(), ErrorCode>);

    open spec fn wf(self) -> bool {
        true
    }

    open spec fn question(self) -> ClientAsk {
        ClientAsk {
            pldm: self.pldm,
            work: if self.complete {
                ClientWork::ReadImageCount
            } else {
                ClientWork::RunUntil(Goal::Reached(State::HeaderDownloadComplete))
            },
        }
    }

    open spec fn accepts(self, answer: ClientAnswer) -> bool {
        if self.complete {
            answer.event is ImageCount
        } else {
            answer.event is Ran
        }
    }

    open spec fn after(self, answer: ClientAnswer) -> Progress<
        HeaderDownload,
        (PldmContext, Result<(), ErrorCode>),
    > {
        if self.complete {
            if answer.event->ImageCount_0 > MAX_IMAGE_COUNT {
                Progress::Done((answer.pldm, Err(ErrorCode::Fail)))
            } else {
                Progress::Done((answer.pldm, Ok(())))
            }
        } else if came_to(answer, State::HeaderDownloadComplete) {
            Progress::Pending(HeaderDownload { pldm: answer.pldm, complete: true })
        } else {
            Progress::Done((answer.pldm, Err(ErrorCode::Fail)))
        }
    }

    proof fn after_is_wf(self, answer: ClientAnswer) {
    }

    fn ask(&self) -> (asked: ClientAsk) {
        ClientAsk {
            pldm: self.pldm,
            work: if self.complete {
                ClientWork::ReadImageCount
            } else {
                ClientWork::RunUntil(Goal::Reached(State::HeaderDownloadComplete))
            },
        }
    }

    fn resume(self, answer: ClientAnswer) -> (next: Progress<
        HeaderDownload,
        (PldmContext, Result<(), ErrorCode>),
    >) {
        match (self.complete, answer.event) {
            (true, ClientEvent::ImageCount(count)) => if count > MAX_IMAGE_COUNT as usize {
                Progress::Done((answer.pldm, Err(ErrorCode::Fail)))
            } else {
                Progress::Done((answer.pldm, Ok(())))
            },
            _ => if has_come_to(&answer, State::HeaderDownloadComplete) {
                Progress::Pending(HeaderDownload { pldm: answer.pldm, complete: true })
            } else {
                Progress::Done((answer.pldm, Err(ErrorCode::Fail)))
            },
        }
    }
}

/// How far a search of the table of contents has come.
#[derive(Copy, Clone, Debug, PartialEq, Eq, Structural)]
pub enum TocStep {
    /// The number of images is read.
    Count,
    /// The entry at `index` is downloaded.
    Fetch { count: usize, index: usize },
    /// The entry at `index` is read.
    Read { count: usize, index: usize },
}

/// A search of the table of contents under way.
#[derive(Copy, Clone, Debug, PartialEq, Eq, Structural)]
pub struct TocSearch {
    pub pldm: PldmContext,
    pub layout: FlashLayout,
    pub component_id: u32,
    pub step: TocStep,
}

/// The result of a search, with what is shared after it.
pub type TocFound = (PldmContext, Result<(u32, u32), ErrorCode>);

/// Starts to look for an image. The entries of the table of contents are
/// downloaded one by one until one is that of the image. It ends with the
/// offset and the size of the image.
pub fn pldm_download_toc(pldm: PldmContext, layout: FlashLayout, component_id: u32) -> (s:
    TocSearch)
    ensures
        s == (TocSearch { pldm, layout, component_id, step: TocStep::Count }),
        s.wf(),
{
    TocSearch { pldm, layout, component_id, step: TocStep::Count }
}

/// Where the entry at `index` stands in the flash.
pub open spec fn entry_offset(layout: FlashLayout, index: int) -> int {
    layout.header_size + index * layout.image_header_size
}

impl TocSearch {
    /// Where the search stands once the entry at `index` is due.
    pub open spec fn next_entry(self, pldm: PldmContext, count: usize, index: usize) -> Progress<
        TocSearch,
        TocFound,
    > {
        if index < count {
            Progress::Pending(
                TocSearch {
                    pldm: with_range(
                        pldm,
                        entry_offset(self.layout, index as int) as usize,
                        self.layout.image_header_size,
                    ),
                    step: TocStep::Fetch { count, index },
                    ..self
                },
            )
        } else {
            Progress::Done((pldm, Err(ErrorCode::Fail)))
        }
    }

    /// Whether all the entries stand within the address range.
    pub open spec fn in_range(self, count: usize) -> bool {
        entry_offset(self.layout, count as int) <= usize::MAX
    }

    fn go_to_entry(self, pldm: PldmContext, count: usize, index: usize) -> (next: Progress<
        TocSearch,
        TocFound,
    >)
        requires
            self.in_range(count),
            index <= count,
        ensures
            next == self.next_entry(pldm, count, index),
            next matches Progress::Pending(m) ==> m.wf(),
    {
        if index >= count {
            return Progress::Done((pldm, Err(ErrorCode::Fail)));
        }
        let mut pldm = pldm;
        assert(0 <= index * self.layout.image_header_size <= count
            * self.layout.image_header_size) by (nonlinear_arith)
            requires
                0 <= index <= count,
                self.layout.image_header_size >= 0,
        ;
        let offset: usize = self.layout.header_size + index * self.layout.image_header_size;
        set_range(&mut pldm, offset, self.layout.image_header_size);
        Progress::Pending(
            TocSearch {
                pldm,
                layout: self.layout,
                component_id: self.component_id,
                step: TocStep::Fetch { count, index },
            },
        )
    }
}

impl Machine for TocSearch {
    type Ask = ClientAsk;

    type Answer = ClientAnswer;

    type Out = TocFound;

    open spec fn wf(self) -> bool {
        match self.step {
            TocStep::Count => true,
            TocStep::Fetch { count, index } => index < count && self.in_range(count),
            TocStep::Read { count, index } => index < count && self.in_range(count),
        }
    }

    open spec fn question(self) -> ClientAsk {
        ClientAsk {
            pldm: self.pldm,
            work: match self.step {
                TocStep::Count => ClientWork::ReadImageCount,
                TocStep::Fetch { .. } => ClientWork::RunUntil(Goal::TocEntry),
                TocStep::Read { .. } => ClientWork::ReadImageInfo,
            },
        }
    }

    open spec fn accepts(self, answer: ClientAnswer) -> bool {
        match self.step {
            TocStep::Count => answer.event matches ClientEvent::ImageCount(count)
                && self.in_range(count),
            TocStep::Fetch { .. } => answer.event is Ran,
            TocStep::Read { .. } => answer.event is ImageInfo,
        }
    }

    open spec fn after(self, answer: ClientAnswer) -> Progress<TocSearch, TocFound> {
        match self.step {
            TocStep::Count => self.next_entry(
                PldmContext { state: State::DownloadingToc, ..answer.pldm },
                answer.event->ImageCount_0,
                0,
            ),
            TocStep::Fetch { count, index } => if answer.event->Ran_0 is Err {
                Progress::Done((answer.pldm, Err(ErrorCode::Fail)))
            } else if answer.pldm.state is TocDownloadComplete {
                Progress::Pending(
                    TocSearch { pldm: answer.pldm, step: TocStep::Read { count, index }, ..self },
                )
            } else {
                Progress::Pending(TocSearch { pldm: answer.pldm, ..self })
            },
            TocStep::Read { count, index } => {
                let info = answer.event->ImageInfo_0;
                if info.identifier == self.component_id {
                    Progress::Done(
                        (
                            PldmContext { state: State::ImageDownloadReady, ..answer.pldm },
                            Ok((info.offset, info.size)),
                        ),
                    )
                } else {
                    self.next_entry(
                        PldmContext { state: State::DownloadingToc, ..answer.pldm },
                        count,
                        (index + 1) as usize,
                    )
                }
            },
        }
    }

    proof fn after_is_wf(self, answer: ClientAnswer) {
    }

    fn ask(&self) -> (asked: ClientAsk) {
        ClientAsk {
            pldm: self.pldm,
            work: match self.step {
                TocStep::Count => ClientWork::ReadImageCount,
                TocStep::Fetch { .. } => ClientWork::RunUntil(Goal::TocEntry),
                TocStep::Read { .. } => ClientWork::ReadImageInfo,
            },
        }
    }

    fn resume(self, answer: ClientAnswer) -> (next: Progress<TocSearch, TocFound>) {
        let mut pldm = answer.pldm;
        match (self.step, answer.event) {
            (TocStep::Count, ClientEvent::ImageCount(count)) => {
                pldm.state = State::DownloadingToc;
                self.go_to_entry(pldm, count, 0)
            },
            (TocStep::Fetch { count, index }, ClientEvent::Ran(ran)) => {
                if ran.is_err() {
                    return Progress::Done((pldm, Err(ErrorCode::Fail)));
                }
                let step = if get_pldm_state(&pldm) == State::TocDownloadComplete {
                    TocStep::Read { count, index }
                } else {
                    self.step
                };
                Progress::Pending(
                    TocSearch { pldm, layout: self.layout, component_id: self.component_id, step },
                )
            },
            (TocStep::Read { count, index }, ClientEvent::ImageInfo(info)) => {
                if info.identifier == self.component_id {
                    pldm.state = State::ImageDownloadReady;
                    Progress::Done((pldm, Ok((info.offset, info.size))))
                } else {
                    pldm.state = State::DownloadingToc;
                    self.go_to_entry(pldm, count, index + 1)
                }
            },
            _ => Progress::Pending(self),
        }
    }
}

/// The entries that were read, in order.
pub open spec fn entries_read(answers: Seq<ClientAnswer>) -> Seq<ImageInfo>
    decreases answers.len(),
{
    if answers.len() == 0 {
        Seq::empty()
    } else {
        let before = entries_read(answers.drop_last());
        match answers.last().event {
            ClientEvent::ImageInfo(info) => before.push(info),
            _ => before,
        }
    }
}

/// A search reads the entries of the table of contents in their order, no more
/// of them than there are images. It ends with the offset and the size in the
/// first one that has the identifier looked for, and leaves the image ready to
/// be downloaded. It fails if none of them has, or if the service cannot be
/// run, and in no other way.
pub proof fn law_toc_search(
    pldm: PldmContext,
    layout: FlashLayout,
    component_id: u32,
    answers: Seq<ClientAnswer>,
)
    requires
        machine::answered(
            Progress::Pending(TocSearch { pldm, layout, component_id, step: TocStep::Count }),
            answers,
        ),
        answers.len() > 0,
    ensures
        ({
            let p = Progress::Pending(
                TocSearch { pldm, layout, component_id, step: TocStep::Count },
            );
            let count = answers[0].event->ImageCount_0;
            let read = entries_read(answers);
            let n = read.len() as int;
            &&& answers[0].event is ImageCount
            &&& n <= count
            &&& forall|i: int|
                0 <= i < n - 1 ==> (#[trigger] read[i]).identifier != component_id
            &&& match machine::run(p, answers) {
                Progress::Done((left, Ok((offset, size)))) => {
                    &&& n > 0
                    &&& read.last() == (ImageInfo { identifier: component_id, offset, size })
                    &&& left.state == State::ImageDownloadReady
                },
                Progress::Done((_, Err(e))) => {
                    &&& e == ErrorCode::Fail
                    &&& n > 0 ==> read.last().identifier != component_id
                    &&& n == count || (answers.last().event matches ClientEvent::Ran(ran)
                        && ran is Err)
                },
                Progress::Pending(m) => {
                    &&& m.wf()
                    &&& m.layout == layout
                    &&& m.component_id == component_id
                    &&& n > 0 ==> read.last().identifier != component_id
                    &&& match m.step {
                        TocStep::Count => false,
                        TocStep::Fetch { count: c, index } => c == count && index == n,
                        TocStep::Read { count: c, index } => c == count && index == n,
                    }
                },
            }
        }),
    decreases answers.len(),
{
    let p = Progress::Pending(TocSearch { pldm, layout, component_id, step: TocStep::Count });
    let before = answers.drop_last();
    if before.len() == 0 {
        assert(machine::run(p, before) == p);
        assert(entries_read(before) =~= Seq::empty());
    } else {
        law_toc_search(pldm, layout, component_id, before);
        let m = machine::run(p, before)->Pending_0;
        m.after_is_wf(answers.last());
    }
}

/// The entry at an index is downloaded from where it stands in the flash,
/// behind the header and the entries before it.
pub proof fn law_toc_entry(m: TocSearch, answer: ClientAnswer)
    requires
        m.wf(),
        m.accepts(answer),
    ensures
        m.after(answer) matches Progress::Pending(next) ==> {
            &&& !(m.step is Fetch) ==> {
                &&& next.step matches TocStep::Fetch { index, .. }
                &&& next.pldm.state == State::DownloadingToc
                &&& next.pldm.download.initial_offset == m.layout.header_size + index
                    * m.layout.image_header_size
                &&& next.pldm.download.current_offset == next.pldm.download.initial_offset
                &&& next.pldm.download.total_length == m.layout.image_header_size
                &&& next.pldm.download.total_downloaded == 0
                &&& index == match m.step {
                    TocStep::Read { index: last, .. } => last + 1,
                    _ => 0,
                }
            }
            &&& m.step is Fetch ==> next.pldm == answer.pldm
        },
{
    m.after_is_wf(answer);
    if let Progress::Pending(next) = m.after(answer) {
        if let TocStep::Fetch { count, index } = next.step {
            assert(0 <= index * m.layout.image_header_size <= count
                * m.layout.image_header_size) by (nonlinear_arith)
                requires
                    0 <= index <= count,
                    m.layout.image_header_size >= 0,
            ;
        }
    }
}

/// A download of an image under way.
#[derive(Copy, Clone, Debug, PartialEq, Eq, Structural)]
pub struct ImageDownload {
    pub pldm: PldmContext,
}

/// The context once an image is to be downloaded.
pub open spec fn image_context(
    pldm: PldmContext,
    load_address: AXIAddr,
    offset: u32,
    size: u32,
) -> PldmContext {
    let ranged = with_range(
        PldmContext { state: State::DownloadingImage, ..pldm },
        offset as usize,
        size as usize,
    );
    PldmContext { download: DownloadCtx { load_address, ..ranged.download }, ..ranged }
}

/// Starts to download an image to an address.
pub fn pldm_download_image(
    pldm: PldmContext,
    load_address: AXIAddr,
    offset: u32,
    size: u32,
) -> (d: ImageDownload)
    ensures
        d == (ImageDownload { pldm: image_context(pldm, load_address, offset, size) }),
{
    let mut pldm = pldm;
    pldm.state = State::DownloadingImage;
    set_range(&mut pldm, offset as usize, size as usize);
    pldm.download.load_address = load_address;
    ImageDownload { pldm }
}

impl Machine for ImageDownload {
    type Ask = ClientAsk;

    type Answer = ClientAnswer;

    type Out = (PldmContext, Result<(), ErrorCode>);

    open spec fn wf(self) -> bool {
        true
    }

    open spec fn question(self) -> ClientAsk {
        ClientAsk {
            pldm: self.pldm,
            work: ClientWork::RunUntil(Goal::Reached(State::ImageDownloadComplete)),
        }
    }

    open spec fn accepts(self, answer: ClientAnswer) -> bool {
        answer.event is Ran
    }

    open spec fn after(self, answer: ClientAnswer) -> Progress<
        ImageDownload,
        (PldmContext, Result<(), ErrorCode>),
    > {
        Progress::Done(
            (
                answer.pldm,
                if came_to(answer, State::ImageDownloadComplete) {
                    Ok(())
                } else {
                    Err(ErrorCode::Fail)
                },
            ),
        )
    }

    proof fn after_is_wf(self, answer: ClientAnswer) {
    }

    fn ask(&self) -> (asked: ClientAsk) {
        ClientAsk {
            pldm: self.pldm,
            work: ClientWork::RunUntil(Goal::Reached(State::ImageDownloadComplete)),
        }
    }

    fn resume(self, answer: ClientAnswer) -> (next: Progress<
        ImageDownload,
        (PldmContext, Result<(), ErrorCode>),
    >) {
        if has_come_to(&answer, State::ImageDownloadComplete) {
            Progress::Done((answer.pldm, Ok(())))
        } else {
            Progress::Done((answer.pldm, Err(ErrorCode::Fail)))
        }
    }
}

/// The start of the update service, under way.
#[derive(Copy, Clone, Debug, PartialEq, Eq, Structural)]
pub enum Initialize {
    /// The service is run until it is initialized.
    Starting { pldm: PldmContext, layout: FlashLayout },
    /// The header is downloaded.
    Header(HeaderDownload),
}

/// The result of a start, with what is shared after it.
pub type Initialized = (PldmContext, Result<(), ErrorCode>);

/// Starts the update service of a device with some descriptors, and downloads
/// the header of the flash. A service that has been started is not started
/// again.
pub fn initialize_pldm(pldm: PldmContext, layout: FlashLayout, descriptor_count: usize) -> (p:
    Progress<Initialize, Initialized>)
    requires
        pldm.state is NotRunning ==> descriptor_count > 0,
    ensures
        p == if pldm.state is NotRunning {
            Progress::Pending(
                Initialize::Starting {
                    pldm: PldmContext { state: State::Initializing, ..pldm },
                    layout,
                },
            )
        } else {
            Progress::<Initialize, Initialized>::Done((pldm, Err(ErrorCode::Already)))
        },
{
    let mut pldm = pldm;
    if pldm.state != State::NotRunning {
        return Progress::Done((pldm, Err(ErrorCode::Already)));
    }
    pldm.state = State::Initializing;
    Progress::Pending(Initialize::Starting { pldm, layout })
}

impl Machine for Initialize {
    type Ask = ClientAsk;

    type Answer = ClientAnswer;

    type Out = Initialized;

    open spec fn wf(self) -> bool {
        true
    }

    open spec fn question(self) -> ClientAsk {
        match self {
            Initialize::Starting { pldm, .. } => ClientAsk {
                pldm,
                work: ClientWork::RunUntil(Goal::Reached(State::Initialized)),
            },
            Initialize::Header(header) => header.question(),
        }
    }

    open spec fn accepts(self, answer: ClientAnswer) -> bool {
        match self {
            Initialize::Starting { .. } => answer.event is Ran,
            Initialize::Header(header) => header.accepts(answer),
        }
    }

    open spec fn after(self, answer: ClientAnswer) -> Progress<Initialize, Initialized> {
        match self {
            Initialize::Starting { layout, .. } => if came_to(answer, State::Initialized) {
                Progress::Pending(
                    Initialize::Header(
                        HeaderDownload {
                            pldm: header_context(answer.pldm, layout),
                            complete: false,
                        },
                    ),
                )
            } else {
                Progress::Done((answer.pldm, Err(ErrorCode::Fail)))
            },
            Initialize::Header(header) => match header.after(answer) {
                Progress::Pending(next) => Progress::Pending(Initialize::Header(next)),
                Progress::Done(end) => Progress::Done(end),
            },
        }
    }

    proof fn after_is_wf(self, answer: ClientAnswer) {
    }

    fn ask(&self) -> (asked: ClientAsk) {
        match self {
            Initialize::Starting { pldm, .. } => ClientAsk {
                pldm: *pldm,
                work: ClientWork::RunUntil(Goal::Reached(State::Initialized)),
            },
            Initialize::Header(header) => header.ask(),
        }
    }

    fn resume(self, answer: ClientAnswer) -> (next: Progress<Initialize, Initialized>) {
        match self {
            Initialize::Starting { layout, .. } => if has_come_to(&answer, State::Initialized) {
                Progress::Pending(Initialize::Header(pldm_download_header(answer.pldm, layout)))
            } else {
                Progress::Done((answer.pldm, Err(ErrorCode::Fail)))
            },
            Initialize::Header(header) => match header.resume(answer) {
                Progress::Pending(next) => Progress::Pending(Initialize::Header(next)),
                Progress::Done(end) => Progress::Done(end),
            },
        }
    }
}

/// The update service comes up exactly if it gets to be initialized, its
/// header gets downloaded, and the header tells of no more images than there
/// can be. It fails at the first of these that does not hold, and then nothing
/// more is asked.
pub proof fn law_initialize(
    pldm: PldmContext,
    layout: FlashLayout,
    answers: Seq<ClientAnswer>,
)
    requires
        machine::answered(Progress::Pending(Initialize::Starting { pldm, layout }), answers),
    ensures
        ({
            let p = Progress::Pending(Initialize::Starting { pldm, layout });
            let n = answers.len();
            let initialized = n > 0 && came_to(answers[0], State::Initialized);
            let loaded = n > 1 && came_to(answers[1], State::HeaderDownloadComplete);
            &&& n <= 3
            &&& n > 1 ==> initialized
            &&& n > 2 ==> loaded
            &&& machine::run(p, answers) == if n == 0 {
                p
            } else if n == 1 && initialized {
                Progress::Pending(
                    Initialize::Header(
                        HeaderDownload {
                            pldm: header_context(answers[0].pldm, layout),
                            complete: false,
                        },
                    ),
                )
            } else if n == 2 && loaded {
                Progress::Pending(
                    Initialize::Header(
                        HeaderDownload { pldm: answers[1].pldm, complete: true },
                    ),
                )
            } else if n == 3 && answers[2].event->ImageCount_0 <= MAX_IMAGE_COUNT {
                Progress::Done((answers[2].pldm, Ok(())))
            } else {
                Progress::Done((answers.last().pldm, Err(ErrorCode::Fail)))
            }
        }),
    decreases answers.len(),
{
    if answers.len() > 0 {
        law_initialize(pldm, layout, answers.drop_last());
    }
}

/// Ends the download with the result of the verification.
pub fn finalize(pldm: &mut PldmContext, verify_result: VerifyResult) -> (r: Result<(), ErrorCode>)
    ensures
        r is Ok,
        *final(pldm) == (PldmContext {
            download: DownloadCtx {
                download_complete: true,
                verify_result,
                ..old(pldm).download
            },
            ..*old(pldm)
        }),
{
    pldm.download.download_complete = true;
    pldm.download.verify_result = verify_result;
    Ok(())
}

/// A part of the flash that is to be downloaded begins at its offset, of which
/// nothing is there yet. The header stands at the start of the flash. An image
/// goes to its load address. Everything else that is shared stays.
pub proof fn law_contexts(
    pldm: PldmContext,
    layout: FlashLayout,
    load_address: AXIAddr,
    offset: u32,
    size: u32,
    from: usize,
    length: usize,
)
    ensures
        ({
            let c = with_range(pldm, from, length);
            &&& c.state == pldm.state
            &&& c.download.total_length == length
            &&& c.download.initial_offset == from && c.download.current_offset == from
            &&& c.download.total_downloaded == 0
            &&& c.download.load_address == pldm.download.load_address
            &&& c.download.download_complete == pldm.download.download_complete
            &&& c.download.verify_result == pldm.download.verify_result
        }),
        ({
            let c = header_context(pldm, layout);
            &&& c.state == State::DownloadingHeader
            &&& c.download.total_length == layout.header_size
            &&& c.download.initial_offset == 0 && c.download.current_offset == 0
            &&& c.download.total_downloaded == 0
            &&& c.download.load_address == pldm.download.load_address
            &&& c.download.download_complete == pldm.download.download_complete
            &&& c.download.verify_result == pldm.download.verify_result
        }),
        ({
            let c = image_context(pldm, load_address, offset, size);
            &&& c.state == State::DownloadingImage
            &&& c.download.total_length == size
            &&& c.download.initial_offset == offset && c.download.current_offset == offset
            &&& c.download.total_downloaded == 0
            &&& c.download.load_address == load_address
            &&& c.download.download_complete == pldm.download.download_complete
            &&& c.download.verify_result == pldm.download.verify_result
        }),
{
}

/// The service has been run far enough for a state exactly if it is in that
/// state, and for an entry exactly if the entry is there or the image is ready.
pub proof fn law_goals(target: State, state: State)
    ensures
        goal_met_spec(Goal::Reached(target), state) <==> state == target,
        goal_met_spec(Goal::TocEntry, state) <==> state == State::TocDownloadComplete || state
            == State::ImageDownloadReady,
        MAX_IMAGE_COUNT == 127,
{
}

/// A download of an image asks one question: to run the service until the
/// download of the image is complete, with the image's range and its load
/// address shared. It ends with the answer: well exactly if the service was run
/// and has come to what it was run for.
pub proof fn law_image_download(
    pldm: PldmContext,
    load_address: AXIAddr,
    offset: u32,
    size: u32,
    answers: Seq<ClientAnswer>,
)
    requires
        machine::answered(
            Progress::Pending(
                ImageDownload { pldm: image_context(pldm, load_address, offset, size) },
            ),
            answers,
        ),
    ensures
        ({
            let p = Progress::Pending(
                ImageDownload { pldm: image_context(pldm, load_address, offset, size) },
            );
            let asked = machine::asked(p, answers);
            let n = answers.len();
            &&& n <= 1
            &&& asked.len() == n
            &&& n == 0 ==> machine::run(p, answers) is Pending
            &&& n == 1 ==> {
                let share = asked[0].pldm;
                let goal = asked[0].work->RunUntil_0;
                let answer = answers[0];
                let end = machine::run(p, answers)->Done_0;
                &&& asked[0].work is RunUntil
                &&& goal == Goal::Reached(State::ImageDownloadComplete)
                &&& share.state == State::DownloadingImage
                &&& share.download.total_length == size
                &&& share.download.initial_offset == offset
                &&& share.download.current_offset == offset
                &&& share.download.total_downloaded == 0
                &&& share.download.load_address == load_address
                &&& share.download.download_complete == pldm.download.download_complete
                &&& share.download.verify_result == pldm.download.verify_result
                &&& machine::run(p, answers) is Done
                &&& end.0 == answer.pldm
                &&& end.1 is Ok <==> answer.event->Ran_0 is Ok && answer.pldm.state
                    == goal->Reached_0
                &&& end.1 is Err ==> end.1->Err_0 == ErrorCode::Fail
            }
        }),
    decreases answers.len(),
{
    let p = Progress::Pending(
        ImageDownload { pldm: image_context(pldm, load_address, offset, size) },
    );
    let before = answers.drop_last();
    if answers.len() > 0 {
        law_image_download(pldm, load_address, offset, size, before);
        assert(before.len() == 0);
        machine::law_runs_step_by_step(p, answers, 0);
        assert(answers.take(0) =~= Seq::empty());
    }
}

/// A download of the header asks to run the service until the header is there,
/// with the header's range shared, and then for the number of images in it. It
/// ends well exactly if the service was run and has come that far, and there are
/// no more than 127 images; otherwise it fails with the answer that says so.
pub proof fn law_header_download(
    pldm: PldmContext,
    layout: FlashLayout,
    answers: Seq<ClientAnswer>,
)
    requires
        machine::answered(
            Progress::Pending(
                HeaderDownload { pldm: header_context(pldm, layout), complete: false },
            ),
            answers,
        ),
    ensures
        ({
            let p = Progress::Pending(
                HeaderDownload { pldm: header_context(pldm, layout), complete: false },
            );
            let asked = machine::asked(p, answers);
            let n = answers.len();
            let loaded = answers[0].event->Ran_0 is Ok && answers[0].pldm.state
                == State::HeaderDownloadComplete;
            let end = machine::run(p, answers)->Done_0;
            &&& n <= 2
            &&& asked.len() == n
            &&& n == 0 ==> machine::run(p, answers) is Pending
            &&& n > 0 ==> {
                let share = asked[0].pldm;
                &&& asked[0].work == ClientWork::RunUntil(
                    Goal::Reached(State::HeaderDownloadComplete),
                )
                &&& answers[0].event is Ran
                &&& share.state == State::DownloadingHeader
                &&& share.download.total_length == layout.header_size
                &&& share.download.initial_offset == 0
                &&& share.download.current_offset == 0
                &&& share.download.total_downloaded == 0
                &&& share.download.load_address == pldm.download.load_address
                &&& share.download.download_complete == pldm.download.download_complete
                &&& share.download.verify_result == pldm.download.verify_result
            }
            &&& n == 1 ==> (machine::run(p, answers) is Pending <==> loaded)
            &&& n == 1 && !loaded ==> machine::run(p, answers) is Done && end.0
                == answers[0].pldm && end.1 is Err && end.1->Err_0 == ErrorCode::Fail
            &&& n == 2 ==> {
                &&& loaded
                &&& asked[1].work == ClientWork::ReadImageCount
                &&& asked[1].pldm == answers[0].pldm
                &&& answers[1].event is ImageCount
                &&& machine::run(p, answers) is Done
                &&& end.0 == answers[1].pldm
                &&& end.1 is Ok <==> answers[1].event->ImageCount_0 <= 127
                &&& end.1 is Err ==> end.1->Err_0 == ErrorCode::Fail
            }
        }),
    decreases answers.len(),
{
    let p = Progress::Pending(
        HeaderDownload { pldm: header_context(pldm, layout), complete: false },
    );
    let before = answers.drop_last();
    if answers.len() > 0 {
        law_header_download(pldm, layout, before);
        let n = answers.len() as int;
        machine::law_runs_step_by_step(p, answers, 0);
        machine::law_runs_step_by_step(p, answers, n - 1);
        assert(answers.take(n - 1) =~= before);
        assert(answers.take(0) =~= Seq::empty());
        if n > 1 {
            assert(before[0] == answers[0]);
            if n > 2 {
                assert(before[1] == answers[1]);
            }
            assert(answers.take(1) =~= before.take(1));
        }
    }
}

/// What a search does with each answer. The number of images leads to the first
/// entry, or to a failure if there is none. While an entry is fetched the
/// service is run again until the entry is there; then it is read. If it is the
/// entry looked for, the search ends with its offset and size, and the image is
/// ready; otherwise the next one is due, or the search fails after the last. An
/// entry is fetched from behind the header and the entries before it. A service
/// that cannot be run ends the search.
pub proof fn law_toc_steps(m: TocSearch, answer: ClientAnswer)
    requires
        m.wf(),
        m.accepts(answer),
    ensures
        m.question().pldm == m.pldm,
        match m.step {
            TocStep::Count => m.question().work == ClientWork::ReadImageCount,
            TocStep::Fetch { .. } => m.question().work == ClientWork::RunUntil(Goal::TocEntry),
            TocStep::Read { .. } => m.question().work == ClientWork::ReadImageInfo,
        },
        match (m.step, answer.event) {
            (TocStep::Fetch { count, index }, ClientEvent::Ran(ran)) => if ran is Err {
                &&& m.after(answer) is Done
                &&& m.after(answer)->Done_0.0 == answer.pldm
                &&& m.after(answer)->Done_0.1 == Err::<(u32, u32), ErrorCode>(ErrorCode::Fail)
            } else {
                &&& m.after(answer) matches Progress::Pending(next)
                &&& next.pldm == answer.pldm
                &&& next.layout == m.layout && next.component_id == m.component_id
                &&& answer.pldm.state == State::TocDownloadComplete ==> next.step == (
                TocStep::Read { count, index })
                &&& answer.pldm.state != State::TocDownloadComplete ==> next.step == m.step
            },
            (TocStep::Read { count, index }, ClientEvent::ImageInfo(info)) => {
                &&& info.identifier == m.component_id ==> {
                    let end = m.after(answer)->Done_0;
                    &&& m.after(answer) is Done
                    &&& end.1 == Ok::<(u32, u32), ErrorCode>((info.offset, info.size))
                    &&& end.0.state == State::ImageDownloadReady
                    &&& end.0.download == answer.pldm.download
                }
                &&& info.identifier != m.component_id && index + 1 < count ==> {
                    &&& m.after(answer) is Pending
                    &&& m.after(answer)->Pending_0.step is Fetch
                    &&& m.after(answer)->Pending_0.step->Fetch_count == count
                    &&& m.after(answer)->Pending_0.step->Fetch_index == index + 1
                }
                &&& info.identifier != m.component_id && index + 1 == count ==> {
                    let end = m.after(answer)->Done_0;
                    &&& m.after(answer) is Done
                    &&& end.1 == Err::<(u32, u32), ErrorCode>(ErrorCode::Fail)
                    &&& end.0.state == State::DownloadingToc
                    &&& end.0.download == answer.pldm.download
                }
            },
            (TocStep::Count, ClientEvent::ImageCount(count)) => {
                &&& count > 0 ==> {
                    &&& m.after(answer) is Pending
                    &&& m.after(answer)->Pending_0.step is Fetch
                    &&& m.after(answer)->Pending_0.step->Fetch_count == count
                    &&& m.after(answer)->Pending_0.step->Fetch_index == 0
                }
                &&& count == 0 ==> {
                    let end = m.after(answer)->Done_0;
                    &&& m.after(answer) is Done
                    &&& end.1 == Err::<(u32, u32), ErrorCode>(ErrorCode::Fail)
                    &&& end.0.state == State::DownloadingToc
                    &&& end.0.download == answer.pldm.download
                }
            },
            _ => false,
        },
        m.after(answer) matches Progress::Pending(next) ==> {
            &&& next.layout == m.layout && next.component_id == m.component_id
            &&& !(m.step is Fetch) ==> {
                let share = next.pldm.download;
                &&& next.pldm.state == State::DownloadingToc
                &&& share.initial_offset == m.layout.header_size + next.step->Fetch_index
                    * m.layout.image_header_size
                &&& share.current_offset == share.initial_offset
                &&& share.total_length == m.layout.image_header_size
                &&& share.total_downloaded == 0
                &&& share.load_address == answer.pldm.download.load_address
                &&& share.download_complete == answer.pldm.download.download_complete
                &&& share.verify_result == answer.pldm.download.verify_result
            }
        },
{
    law_toc_entry(m, answer);
}

/// The start of the service asks to run it until it is initialized, then until
/// the header is there, with the header's range shared, and then for the number
/// of images. It ends well exactly if each of the runs has come to what it was
/// for and there are no more than 127 images; it fails with the first answer
/// that says otherwise.
pub proof fn law_initialize_run(
    pldm: PldmContext,
    layout: FlashLayout,
    answers: Seq<ClientAnswer>,
)
    requires
        machine::answered(Progress::Pending(Initialize::Starting { pldm, layout }), answers),
    ensures
        ({
            let p = Progress::Pending(Initialize::Starting { pldm, layout });
            let asked = machine::asked(p, answers);
            let n = answers.len();
            let initialized = answers[0].event->Ran_0 is Ok && answers[0].pldm.state
                == State::Initialized;
            let loaded = answers[1].event->Ran_0 is Ok && answers[1].pldm.state
                == State::HeaderDownloadComplete;
            let goes_on = n == 0 || n == 1 && initialized || n == 2 && loaded;
            let end = machine::run(p, answers)->Done_0;
            &&& n <= 3
            &&& asked.len() == n
            &&& n > 0 ==> {
                &&& asked[0].pldm == pldm
                &&& asked[0].work == ClientWork::RunUntil(Goal::Reached(State::Initialized))
                &&& answers[0].event is Ran
            }
            &&& n > 1 ==> {
                let share = asked[1].pldm;
                &&& initialized
                &&& asked[1].work == ClientWork::RunUntil(
                    Goal::Reached(State::HeaderDownloadComplete),
                )
                &&& answers[1].event is Ran
                &&& share.state == State::DownloadingHeader
                &&& share.download.total_length == layout.header_size
                &&& share.download.initial_offset == 0
                &&& share.download.current_offset == 0
                &&& share.download.total_downloaded == 0
                &&& share.download.load_address == answers[0].pldm.download.load_address
                &&& share.download.download_complete == answers[0].pldm.download.download_complete
                &&& share.download.verify_result == answers[0].pldm.download.verify_result
            }
            &&& n > 2 ==> {
                &&& loaded
                &&& asked[2].pldm == answers[1].pldm
                &&& asked[2].work == ClientWork::ReadImageCount
                &&& answers[2].event is ImageCount
            }
            &&& machine::run(p, answers) is Pending <==> goes_on
            &&& !goes_on ==> {
                &&& end.0 == answers.last().pldm
                &&& end.1 is Ok <==> n == 3 && answers[2].event->ImageCount_0 <= 127
                &&& end.1 is Err ==> end.1->Err_0 == ErrorCode::Fail
            }
        }),
{
    let p = Progress::Pending(Initialize::Starting { pldm, layout });
    let n = answers.len() as int;
    law_initialize(pldm, layout, answers);
    if n > 0 {
        machine::law_runs_step_by_step(p, answers, 0);
        law_initialize(pldm, layout, answers.take(0));
    }
    if n > 1 {
        machine::law_runs_step_by_step(p, answers, 1);
        law_initialize(pldm, layout, answers.take(1));
    }
    if n > 2 {
        machine::law_runs_step_by_step(p, answers, 2);
        law_initialize(pldm, layout, answers.take(2));
    }
}

} // verus!
