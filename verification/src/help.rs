//! The help shown over the controls. Every text is looked up by a key that is the same in all
//! languages.
use vstd::prelude::*;

verus! {

/// What a help text is about.
#[derive(Clone, Copy, Debug, PartialEq, Eq, Structural)]
pub enum HelpTopic {
    GpuSelect,
    GpuStopFirst,
    CaptureSize,
    CaptureSizeSelect,
    PresetOverwrite,
    DuplicateSummary,
    Duplicate,
    ResizeFinal,
    ResizeEdit,
    Aspect,
    Crop,
    CropEditLocked,
    SmoothPacing,
    Vsync,
    InterpolationFactor,
    TensorRt,
    TensorRtCropUnsaved,
    TensorRtPackRequired,
    TensorRtUnavailable,
    PanelShow,
    PanelTopmostOn,
    PanelTopmostOff,
    ClientOnly,
    ClientOnlyForced,
    Hdr,
    Log,
    CursorSpeed,
    AdminRequired,
    Stats,
    FilterToggle,
    Delete,
    MoveDown,
    MoveUp,
}

/// The key of a help text.
pub open spec fn key_of(topic: HelpTopic) -> Seq<char> {
    match topic {
        HelpTopic::GpuSelect => "gpu.select_help"@,
        HelpTopic::GpuStopFirst => "gpu.stop_to_change"@,
        HelpTopic::CaptureSize => "capture.size_help"@,
        HelpTopic::CaptureSizeSelect => "capture.size_select_help"@,
        HelpTopic::PresetOverwrite => "preset.overwrite_help"@,
        HelpTopic::DuplicateSummary => "duplicate.summary"@,
        HelpTopic::Duplicate => "duplicate.help"@,
        HelpTopic::ResizeFinal => "resize.final_help"@,
        HelpTopic::ResizeEdit => "resize.edit"@,
        HelpTopic::Aspect => "aspect.help"@,
        HelpTopic::Crop => "crop.help"@,
        HelpTopic::CropEditLocked => "crop.tensorrt_edit_locked"@,
        HelpTopic::SmoothPacing => "smooth.help"@,
        HelpTopic::Vsync => "vsync.help"@,
        HelpTopic::InterpolationFactor => "interpolation.factor_help"@,
        HelpTopic::TensorRt => "tensorrt.help"@,
        HelpTopic::TensorRtCropUnsaved => "tensorrt.crop_unsaved_help"@,
        HelpTopic::TensorRtPackRequired => "tensorrt.pack_required"@,
        HelpTopic::TensorRtUnavailable => "tensorrt.unavailable_help"@,
        HelpTopic::PanelShow => "panel.show_help"@,
        HelpTopic::PanelTopmostOn => "panel.gui_topmost_enable_help"@,
        HelpTopic::PanelTopmostOff => "panel.gui_topmost_disable_help"@,
        HelpTopic::ClientOnly => "capture.client_help"@,
        HelpTopic::ClientOnlyForced => "capture.client_forced_help"@,
        HelpTopic::Hdr => "hdr.help"@,
        HelpTopic::Log => "log.help"@,
        HelpTopic::CursorSpeed => "cursor.speed_help"@,
        HelpTopic::AdminRequired => "admin.required_help"@,
        HelpTopic::Stats => "stats.help"@,
        HelpTopic::FilterToggle => "filter.toggle"@,
        HelpTopic::Delete => "common.delete"@,
        HelpTopic::MoveDown => "common.move_down"@,
        HelpTopic::MoveUp => "common.move_up"@,
    }
}

pub fn help_key(topic: HelpTopic) -> (key: &'static str)
    ensures
        key@ == key_of(topic),
{
    match topic {
        HelpTopic::GpuSelect => "gpu.select_help",
        HelpTopic::GpuStopFirst => "gpu.stop_to_change",
        HelpTopic::CaptureSize => "capture.size_help",
        HelpTopic::CaptureSizeSelect => "capture.size_select_help",
        HelpTopic::PresetOverwrite => "preset.overwrite_help",
        HelpTopic::DuplicateSummary => "duplicate.summary",
        HelpTopic::Duplicate => "duplicate.help",
        HelpTopic::ResizeFinal => "resize.final_help",
        HelpTopic::ResizeEdit => "resize.edit",
        HelpTopic::Aspect => "aspect.help",
        HelpTopic::Crop => "crop.help",
        HelpTopic::CropEditLocked => "crop.tensorrt_edit_locked",
        HelpTopic::SmoothPacing => "smooth.help",
        HelpTopic::Vsync => "vsync.help",
        HelpTopic::InterpolationFactor => "interpolation.factor_help",
        HelpTopic::TensorRt => "tensorrt.help",
        HelpTopic::TensorRtCropUnsaved => "tensorrt.crop_unsaved_help",
        HelpTopic::TensorRtPackRequired => "tensorrt.pack_required",
        HelpTopic::TensorRtUnavailable => "tensorrt.unavailable_help",
        HelpTopic::PanelShow => "panel.show_help",
        HelpTopic::PanelTopmostOn => "panel.gui_topmost_enable_help",
        HelpTopic::PanelTopmostOff => "panel.gui_topmost_disable_help",
        HelpTopic::ClientOnly => "capture.client_help",
        HelpTopic::ClientOnlyForced => "capture.client_forced_help",
        HelpTopic::Hdr => "hdr.help",
        HelpTopic::Log => "log.help",
        HelpTopic::CursorSpeed => "cursor.speed_help",
        HelpTopic::AdminRequired => "admin.required_help",
        HelpTopic::Stats => "stats.help",
        HelpTopic::FilterToggle => "filter.toggle",
        HelpTopic::Delete => "common.delete",
        HelpTopic::MoveDown => "common.move_down",
        HelpTopic::MoveUp => "common.move_up",
    }
}

/// The help of the card selector: while it is locked, what has to be done first.
pub fn gpu_selector_help(enabled: bool) -> (topic: HelpTopic)
    ensures
        topic == (if enabled {
            HelpTopic::GpuSelect
        } else {
            HelpTopic::GpuStopFirst
        }),
{
    if enabled {
        HelpTopic::GpuSelect
    } else {
        HelpTopic::GpuStopFirst
    }
}

/// The help of the option to leave the frame away: while it is forced, why.
pub fn client_only_help(forced: bool) -> (topic: HelpTopic)
    ensures
        topic == (if forced {
            HelpTopic::ClientOnlyForced
        } else {
            HelpTopic::ClientOnly
        }),
{
    if forced {
        HelpTopic::ClientOnlyForced
    } else {
        HelpTopic::ClientOnly
    }
}

/// The texts of the backend's help in the language of the window. The last two hold the number
/// of the filters that they speak of.
pub struct BackendHelp {
    pub help: String,
    pub crop_unsaved: String,
    pub cuda_fallback: String,
    pub directml_fallback: String,
}

/// A line of its own if the condition holds.
pub open spec fn line_if(condition: bool, line: Seq<char>) -> Seq<char> {
    if condition {
        "\n"@ + line
    } else {
        Seq::empty()
    }
}

/// The help of the backend option: a line about the crop while it keeps the option locked, and
/// a line for each kind of filter that runs elsewhere.
pub open spec fn backend_help_text(
    texts: BackendHelp,
    selected: bool,
    crop_allowed: bool,
    cuda_stages: u32,
    directml_stages: u32,
) -> Seq<char> {
    texts.help@ + line_if(!crop_allowed && !selected, texts.crop_unsaved@) + line_if(
        cuda_stages > 0,
        texts.cuda_fallback@,
    ) + line_if(directml_stages > 0, texts.directml_fallback@)
}

fn push_line_if(out: &mut String, condition: bool, line: &str)
    ensures
        final(out)@ == old(out)@ + line_if(condition, line@),
{
    if condition {
        out.append("\n");
        out.append(line);
    }
    assert(out@ =~= old(out)@ + line_if(condition, line@));
}

pub fn backend_help(
    texts: &BackendHelp,
    selected: bool,
    crop_allowed: bool,
    cuda_stages: u32,
    directml_stages: u32,
) -> (text: String)
    ensures
        text@ == backend_help_text(*texts, selected, crop_allowed, cuda_stages, directml_stages),
{
    let mut text = texts.help.clone();
    push_line_if(&mut text, !crop_allowed && !selected, texts.crop_unsaved.as_str());
    push_line_if(&mut text, cuda_stages > 0, texts.cuda_fallback.as_str());
    push_line_if(&mut text, directml_stages > 0, texts.directml_fallback.as_str());
    text
}

/// The help of the backend begins with what it is; why it is locked follows only where the crop keeps
/// it from being switched on, and each kind of filter that runs elsewhere has its line where there is
/// one.
pub proof fn the_help_says_what_holds(
    texts: BackendHelp,
    selected: bool,
    crop_allowed: bool,
    cuda_stages: u32,
    directml_stages: u32,
)
    ensures
        selected && cuda_stages == 0 && directml_stages == 0 ==> backend_help_text(
            texts,
            selected,
            crop_allowed,
            cuda_stages,
            directml_stages,
        ) == texts.help@,
        !selected && !crop_allowed && cuda_stages > 0 && directml_stages > 0 ==> backend_help_text(
            texts,
            selected,
            crop_allowed,
            cuda_stages,
            directml_stages,
        ) == texts.help@ + ("\n"@ + texts.crop_unsaved@) + ("\n"@ + texts.cuda_fallback@) + ("\n"@
            + texts.directml_fallback@),
        crop_allowed && cuda_stages > 0 && directml_stages == 0 ==> backend_help_text(
            texts,
            selected,
            crop_allowed,
            cuda_stages,
            directml_stages,
        ) == texts.help@ + ("\n"@ + texts.cuda_fallback@),
        crop_allowed && cuda_stages == 0 && directml_stages > 0 ==> backend_help_text(
            texts,
            selected,
            crop_allowed,
            cuda_stages,
            directml_stages,
        ) == texts.help@ + ("\n"@ + texts.directml_fallback@),
        !selected && !crop_allowed && cuda_stages == 0 && directml_stages == 0 ==> backend_help_text(
            texts,
            selected,
            crop_allowed,
            cuda_stages,
            directml_stages,
        ) == texts.help@ + ("\n"@ + texts.crop_unsaved@),
{
    let none = Seq::<char>::empty();
    let help = texts.help@;
    assert(help + none + none + none =~= help);
    assert(help + none + ("\n"@ + texts.cuda_fallback@) + none =~= help + ("\n"@ + texts.cuda_fallback@));
    assert(help + none + none + ("\n"@ + texts.directml_fallback@) =~= help + ("\n"@ + texts.directml_fallback@));
    assert(help + ("\n"@ + texts.crop_unsaved@) + none + none =~= help + ("\n"@ + texts.crop_unsaved@));
}

} // verus!
