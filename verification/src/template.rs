//! Composing the instance that is created from the template that was
//! fetched: the template is merged into, never replaced.

use vstd::prelude::*;
use vstd::string::StringExecFns;
use crate::annotations::Annotations;
use crate::bootstrap::{RunnerInfo, RunnerInfoView};
use crate::volume::{
    lemma_upsert_idempotent, lemma_upsert_keeps_others, lemma_upsert_namesakes, namesakes, others,
    put_volume, upsert, volume_views, FieldProjection, FieldProjectionView, Volume, VolumeSource,
    VolumeSourceView, VolumeView,
};

verus! {

/// The annotation that holds the serialized runner information.
pub const RUNNER_INFO_ANNOTATION: &'static str = "li.zhaofeng.kubevirt-actions-runner/runner-info";

/// The volume that exposes the runner information to the machine.
pub const RUNNER_INFO_VOLUME: &'static str = "runner-info";

/// The file, inside that volume, in which the runner information is found.
pub const RUNNER_INFO_PATH: &'static str = "runner-info.json";

/// The metadata of an object: its name and annotations, and the rest as it
/// came.
#[derive(Debug)]
pub struct Metadata {
    pub name: Option<String>,
    pub annotations: Annotations,
    pub other: serde_json::Value,
}

/// The specification of an instance: its volumes, and the rest as it came.
#[derive(Debug)]
pub struct VirtualMachineInstanceSpec {
    pub volumes: Vec<Volume>,
    pub data: serde_json::Value,
}

/// The template that a virtual machine holds for its instances.
#[derive(Debug)]
pub struct VirtualMachineTemplate {
    pub metadata: Metadata,
    pub spec: VirtualMachineInstanceSpec,
}

/// An instance as it is handed to the cluster for creation.
#[derive(Debug)]
pub struct VirtualMachineInstance {
    pub metadata: Metadata,
    pub spec: VirtualMachineInstanceSpec,
}

pub struct MetadataView {
    pub name: Option<Seq<char>>,
    pub annotations: Map<Seq<char>, Seq<char>>,
    pub other: serde_json::Value,
}

pub struct VirtualMachineInstanceSpecView {
    pub volumes: Seq<VolumeView>,
    pub data: serde_json::Value,
}

pub struct VirtualMachineTemplateView {
    pub metadata: MetadataView,
    pub spec: VirtualMachineInstanceSpecView,
}

pub struct VirtualMachineInstanceView {
    pub metadata: MetadataView,
    pub spec: VirtualMachineInstanceSpecView,
}

impl View for Metadata {
    type V = MetadataView;

    open spec fn view(&self) -> MetadataView {
        MetadataView {
            name: self.name.deep_view(),
            annotations: self.annotations@,
            other: self.other,
        }
    }
}

impl View for VirtualMachineInstanceSpec {
    type V = VirtualMachineInstanceSpecView;

    open spec fn view(&self) -> VirtualMachineInstanceSpecView {
        VirtualMachineInstanceSpecView { volumes: volume_views(self.volumes@), data: self.data }
    }
}

impl View for VirtualMachineTemplate {
    type V = VirtualMachineTemplateView;

    open spec fn view(&self) -> VirtualMachineTemplateView {
        VirtualMachineTemplateView { metadata: self.metadata@, spec: self.spec@ }
    }
}

impl View for VirtualMachineInstance {
    type V = VirtualMachineInstanceView;

    open spec fn view(&self) -> VirtualMachineInstanceView {
        VirtualMachineInstanceView { metadata: self.metadata@, spec: self.spec@ }
    }
}

impl VirtualMachineInstanceView {
    /// The instance, taken as a template for another.
    pub open spec fn as_template(self) -> VirtualMachineTemplateView {
        VirtualMachineTemplateView { metadata: self.metadata, spec: self.spec }
    }
}

/// The field of the instance that holds the runner information.
pub open spec fn runner_info_field_path() -> Seq<char> {
    "metadata.annotations['"@ + RUNNER_INFO_ANNOTATION@ + "']"@
}

/// The volume that projects the runner-information annotation into the
/// file `runner-info.json`.
pub open spec fn runner_info_volume() -> VolumeView {
    VolumeView {
        name: RUNNER_INFO_VOLUME@,
        source: VolumeSourceView::DownwardApi(
            seq![
                FieldProjectionView {
                    path: RUNNER_INFO_PATH@,
                    field_path: runner_info_field_path(),
                },
            ],
        ),
    }
}

/// The instance composed from a template: the template's metadata under the
/// runner's name and with the payload as the runner-information annotation,
/// and the template's specification with the runner-information volume put
/// into its volumes.
pub open spec fn composed(
    template: VirtualMachineTemplateView,
    name: Seq<char>,
    payload: Seq<char>,
) -> VirtualMachineInstanceView {
    VirtualMachineInstanceView {
        metadata: MetadataView {
            name: Some(name),
            annotations: template.metadata.annotations.insert(RUNNER_INFO_ANNOTATION@, payload),
            other: template.metadata.other,
        },
        spec: VirtualMachineInstanceSpecView {
            volumes: upsert(template.spec.volumes, runner_info_volume()),
            data: template.spec.data,
        },
    }
}

impl Volume {
    /// The volume that exposes the runner information.
    pub fn runner_info() -> (r: Volume)
        ensures
            r@ == runner_info_volume(),
    {
        let mut field_path = String::from_str("metadata.annotations['");
        field_path.append(RUNNER_INFO_ANNOTATION);
        field_path.append("']");
        let field = FieldProjection { path: String::from_str(RUNNER_INFO_PATH), field_path };
        let mut fields: Vec<FieldProjection> = Vec::new();
        fields.push(field);
        assert(fields@.map_values(|f: FieldProjection| f@) == seq![field@]);
        Volume {
            name: String::from_str(RUNNER_INFO_VOLUME),
            source: VolumeSource::DownwardApi(fields),
        }
    }
}

/// Composes the instance for the runner called `name` from the template,
/// with `payload` as the serialized runner information.
pub fn compose(template: VirtualMachineTemplate, name: String, payload: String) -> (r:
    VirtualMachineInstance)
    ensures
        r@ == composed(template@, name@, payload@),
{
    let mut metadata = template.metadata;
    let mut spec = template.spec;
    metadata.name = Some(name);
    metadata.annotations.insert(String::from_str(RUNNER_INFO_ANNOTATION), payload);
    put_volume(&mut spec.volumes, Volume::runner_info());
    VirtualMachineInstance { metadata, spec }
}

/// The instance for a runner: the one composed with the payload of the
/// runner information, and nothing where that information has no payload.
pub open spec fn instantiated(
    template: VirtualMachineTemplateView,
    name: Seq<char>,
    info: RunnerInfoView,
) -> Option<VirtualMachineInstanceView> {
    match info.payload() {
        Some(payload) => Some(composed(template, name, payload)),
        None => None,
    }
}

/// The view of an instance, if the result is one.
pub open spec fn instance_of(r: Result<VirtualMachineInstance, serde_json::Error>) -> Option<
    VirtualMachineInstanceView,
> {
    match r {
        Ok(instance) => Some(instance@),
        Err(_) => None,
    }
}

/// Serializes the runner information and composes the instance with it.
/// Where `serde_json` fails to serialize, its error is handed on as it came
/// and nothing is composed.
pub fn instantiate(template: VirtualMachineTemplate, name: String, info: &RunnerInfo) -> (r:
    Result<VirtualMachineInstance, serde_json::Error>)
    ensures
        instance_of(r) == instantiated(template@, name@, info@),
{
    let payload = info.to_json()?;
    Ok(compose(template, name, payload))
}

/// Composing keeps every volume that is not called `runner-info`, in the
/// template's order, and leaves the rest of the specification and of the
/// metadata as they came.
pub proof fn lemma_compose_keeps_template(
    template: VirtualMachineTemplateView,
    name: Seq<char>,
    payload: Seq<char>,
)
    ensures
        others(composed(template, name, payload).spec.volumes, RUNNER_INFO_VOLUME@) == others(
            template.spec.volumes,
            RUNNER_INFO_VOLUME@,
        ),
        composed(template, name, payload).spec.data == template.spec.data,
        composed(template, name, payload).metadata.other == template.metadata.other,
        forall|key: Seq<char>|
            key != RUNNER_INFO_ANNOTATION@ ==> (#[trigger] composed(
                template,
                name,
                payload,
            ).metadata.annotations.dom().contains(key)
                <==> template.metadata.annotations.dom().contains(key)),
        forall|key: Seq<char>|
            key != RUNNER_INFO_ANNOTATION@ && template.metadata.annotations.dom().contains(key)
                ==> (#[trigger] composed(template, name, payload).metadata.annotations[key])
                == template.metadata.annotations[key],
{
    lemma_upsert_keeps_others(template.spec.volumes, runner_info_volume());
}

/// The composed instance carries the payload under the runner-information
/// annotation, and its first volume called `runner-info` is the one that
/// projects that annotation. Where the template has at most one volume of
/// that name, the instance has exactly one.
pub proof fn lemma_compose_exposes_payload(
    template: VirtualMachineTemplateView,
    name: Seq<char>,
    payload: Seq<char>,
)
    ensures
        composed(template, name, payload).metadata.name == Some(name),
        composed(template, name, payload).metadata.annotations.dom().contains(
            RUNNER_INFO_ANNOTATION@,
        ),
        composed(template, name, payload).metadata.annotations[RUNNER_INFO_ANNOTATION@] == payload,
        namesakes(composed(template, name, payload).spec.volumes, RUNNER_INFO_VOLUME@)[0]
            == runner_info_volume(),
        namesakes(template.spec.volumes, RUNNER_INFO_VOLUME@).len() <= 1 ==> namesakes(
            composed(template, name, payload).spec.volumes,
            RUNNER_INFO_VOLUME@,
        ).len() == 1,
{
    lemma_upsert_namesakes(template.spec.volumes, runner_info_volume());
}

/// Composing again from a composed instance, with the same name and
/// payload, changes nothing.
pub proof fn lemma_compose_idempotent(
    template: VirtualMachineTemplateView,
    name: Seq<char>,
    payload: Seq<char>,
)
    ensures
        composed(composed(template, name, payload).as_template(), name, payload) == composed(
            template,
            name,
            payload,
        ),
{
    lemma_upsert_idempotent(template.spec.volumes, runner_info_volume());
    let once = composed(template, name, payload);
    assert(once.metadata.annotations.insert(RUNNER_INFO_ANNOTATION@, payload)
        == once.metadata.annotations);
}

} // verus!
