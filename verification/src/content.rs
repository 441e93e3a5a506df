//! The content registry: a fixed, total mapping from a page to its content
//! blocks and background image. Pure data, constructed once, no behavior.

use vstd::prelude::*;
use crate::page::Page;

verus! {

// Background image assets, one per page.

pub const ABOUT_BACKGROUND: &'static str = "Earth-From-Space-HD-Backgrounds.jpg";

pub const EDUCATION_BACKGROUND: &'static str = "Memorial_Union_at_Oregon_State_University.jpg";

pub const CERTIFICATIONS_BACKGROUND: &'static str = "drafting_cropped.jpg";

pub const EXPERIENCE_BACKGROUND: &'static str = "semiconductors.jpg";

pub const PROJECTS_BACKGROUND: &'static str = "Matrix.jpg";

pub const CONTRIBUTIONS_BACKGROUND: &'static str = "Polycyclic_Aromatic_Hydrocarbons_In_Space.jpg";

// Education.

pub const DEGREE_HREF: &'static str = "https://oregonstate.edu";

pub const DEGREE_TITLE: &'static str = "BS Mechanical Engineering";

pub const DEGREE_SUBTITLE: &'static str = "Oregon State University";

pub const CAPSTONE_HREF: &'static str = "https://www.global-formula-racing.com";

pub const CAPSTONE_TITLE: &'static str = "Capstone Senior Design";

pub const CAPSTONE_SUBTITLE: &'static str = "Global Formula Racing";

pub const CAPSTONE_SUMMARY: &'static str = "As part of Capstone Senior Design, worked on the Data Acquisition System of a Racecar. This began with the evaluation of previous designs, and determining what data was to be measured, presenting the proposal, all the way through fabrication and assembly. For example, a new GPS system was selected and was sponsored, which has inch level precision. Also, a suite of proximity sensors (for the chassis and aerodynamics) were acquired and custom mounts were designed and fabricated, including custom wiring and potting.";

// Certifications.

pub const CERT_HREF: &'static str = "https://www.oregon.gov/OSBEELS";

pub const CERT_TITLE: &'static str = "Engineering Intern";

pub const CERT_SUBTITLE: &'static str = "Oregon State Board of Examiners for Engineering & Land Surveying";

// Experience.

pub const MANUFACTURING_TITLE: &'static str = "Manufacturing Technician";

pub const MANUFACTURING_SUBTITLE: &'static str = "Retronix Semiconductor";

pub const MANUFACTURING_SUMMARY: &'static str = "Manages and monitors semiconductor manufacturing equipment and automation system for Intel from a remote command center. Ensures that production is running smoothly, operates equipment remotely and escalates any delays or equipment issues as appropriate. Documents potential automation issues to improve utilization. Maintains quality control in accordance with engineering instructions and propagates WIP through manufacturing stages, coordinating with other manufacturing groups as appropriate.";

pub const FIELD_SERVICE_TITLE: &'static str = "Field Service Engineer";

pub const FIELD_SERVICE_SUBTITLE: &'static str = "Tokyo Electron";

pub const FIELD_SERVICE_SUMMARY: &'static str = "Provides Intel with maintenance support for COT / DEV tools, such as ACT12, Lithius, and Lithius Pro V. Routinely leads 2 person work groups in coordination with our customer Intel, to complete both routine maintenance, upgrades, and troubleshooting of tool down situations, escalating to knowledgeable team members when necessary. Additionally performs modifications based on schematics to replace hardware, electronics, or chemical / gas lines and components, and or update firmware and or software.";

// Projects.

pub const SITE_HREF: &'static str = "https://www.github.com/charles-r-earp/charles-r-earp.github.io";

pub const SITE_TITLE: &'static str = "Portfolio Website";

pub const SITE_SUMMARY: &'static str = "This website, built with Dioxus.";

pub const AUTOGRAPH_HREF: &'static str = "https://www.github.com/charles-r-earp/autograph";

pub const AUTOGRAPH_TITLE: &'static str = "autograph";

pub const AUTOGRAPH_SUBTITLE: &'static str = "A machine learning library for Rust.";

pub const AUTOGRAPH_SUMMARY: &'static str = "Built a functional neural network library from scratch, with support for both CPU and GPU execution. Most of the code is Rust, with some C++, as well as CUDA and OpenCL. Experimented with OpenCL and ROCm backends in order to target AMD as well. Features include Dense, Convolutional, Pooling, and ReLU layers, Stochastic Gradient Descent optimizer, and the ability to checkpoint and save the model parameters.";

pub const KRNL_HREF: &'static str = "https://www.github.com/charles-r-earp/krnl";

pub const KRNL_TITLE: &'static str = "krnl";

pub const KRNL_SUBTITLE: &'static str = "Safe, portable, high performance compute (GPGPU) kernels.";

pub const KRNL_SUMMARY: &'static str = "Similar functionality to CUDA and OpenCL. Kernels are written inline, entirely in Rust, using module and kernel proc macros. Simple iterator patterns can be implemented without unsafe. krnlc locates modules and compiles with rust-gpu's spirv-builder.";

// Open-source contributions.

pub const CARGO_HREF: &'static str = "https://github.com/rust-lang/cargo/pulls?q=is%3Apr+author%3Acharles-r-earp";

pub const CARGO_TITLE: &'static str = "Cargo";

pub const CARGO_SUBTITLE: &'static str = "The Rust package manager.";

pub const CARGO_NOTE: &'static str = "Added workspace members to cargo metadata command.";

pub const RUST_GPU_HREF: &'static str = "https://github.com/EmbarkStudios/rust-gpu/pulls?q=is%3Apr+author%3Acharles-r-earp";

pub const RUST_GPU_TITLE: &'static str = "rust-gpu";

pub const RUST_GPU_SUBTITLE: &'static str = "Making Rust a first-class language and ecosystem for GPU shaders.";

pub const RUST_GPU_NOTE_MODES: &'static str = "Support for ExecutionModes and created an example for compute shaders with wgpu.";

pub const RUST_GPU_NOTE_NAMES: &'static str = "Added name to entry point variables for reflection and debugging.";

pub const VULKANO_HREF: &'static str = "https://github.com/vulkano-rs/vulkano/pulls?q=is%3Apr+author%3Acharles-r-earp";

pub const VULKANO_TITLE: &'static str = "vulkano";

pub const VULKANO_SUBTITLE: &'static str = "Safe and rich Rust wrapper around the Vulkan API.";

pub const VULKANO_NOTE_SUBGROUP: &'static str = "Allow customizing the subgroup size on pipeline creation.";

pub const VULKANO_NOTE_SPEC_CONSTANT: &'static str = "Fixed bug in validating the result type of SpecConstantOp.";

pub const VULKANO_NOTE_PUSH_CONSTANT: &'static str = "Reflect push constant requirements by variable usage.";

pub const QDRANT_HREF: &'static str = "https://github.com/qdrant/qdrant/pulls?q=is%3Apr+author%3Acharles-r-earp";

pub const QDRANT_TITLE: &'static str = "qdrant";

pub const QDRANT_SUBTITLE: &'static str = "Qdrant - High-performance, massive-scale Vector Database for the next generation of AI.";

pub const QDRANT_NOTE_ELEMENT: &'static str = "Feature gate f16 as VectorElementType.";

pub const QDRANT_NOTE_STORAGE: &'static str = "Based on feedback, reduced scope to vector storage, and feature gate f16 as VectorStorageElementType.";

pub const ZED_HREF: &'static str = "https://github.com/zed-industries/zed/pulls?q=is%3Apr+author%3Acharles-r-earp";

pub const ZED_TITLE: &'static str = "zed";

pub const ZED_SUBTITLE: &'static str = "Code at the speed of thought - Zed is a high-performance, multiplayer code editor from the creators of Atom and Tree-sitter.";

pub const ZED_NOTE: &'static str = "Support left tab on linux.";

pub const HALF_HREF: &'static str = "https://github.com/starkat99/half-rs/pulls?q=is%3Apr+author%3Acharles-r-earp";

pub const HALF_TITLE: &'static str = "half";

pub const HALF_SUBTITLE: &'static str = "Half-precision floating point types f16 and bf16 for Rust.";

pub const HALF_NOTE_SPIRV: &'static str = "Support for SPIR-V arch.";

pub const HALF_NOTE_NUM_TRAITS: &'static str = "num-traits implementations.";

pub const HALF_NOTE_BYTEMUCK: &'static str = "bytemuck support.";

pub const HALF_NOTE_AS_PRIMITIVE: &'static str = "Add AsPrimitive implementations between f16 and bf16.";

pub const DLL_HREF: &'static str = "https://github.com/wichtounet/dll/pulls?q=is%3Apr+author%3Acharles-r-earp";

pub const DLL_TITLE: &'static str = "dll";

pub const DLL_SUBTITLE: &'static str = "Fast Deep Learning Library (DLL) for C++ (ANNs, CNNs, RBMs, DBNs...)";

pub const DLL_NOTE: &'static str = "Added support for regression prediction, ie raw values instead of classification, as a minor modification of fine_tune_ae().";

pub const CAFFE2_HREF: &'static str = "https://github.com/facebookarchive/caffe2/pulls?q=is%3Apr+author%3Acharles-r-earp";

pub const CAFFE2_TITLE: &'static str = "caffe2";

pub const CAFFE2_SUBTITLE: &'static str = "Caffe2 is a lightweight, modular, and scalable deep learning framework.";

pub const CAFFE2_NOTE_PYTHON3: &'static str = "Easier Compilation with Python3 (Not accepted).";

pub const CAFFE2_NOTE_TOOLS: &'static str = "Python: add tools for adding gradient descent ops and deploying, saving, and loading nets (Not Accepted).";

/// One renderable unit of a page: an optional link target, an optional
/// title, an optional subtitle, and the nested paragraph text beneath them.
#[derive(Clone, Debug, PartialEq, Eq)]
pub struct ContentBlock {
    pub href: Option<&'static str>,
    pub title: Option<&'static str>,
    pub subtitle: Option<&'static str>,
    pub paragraphs: Vec<&'static str>,
}

/// Mathematical model of a content block: the same fields at the level of
/// character sequences.
#[verifier::ext_equal]
pub ghost struct BlockModel {
    pub href: Option<Seq<char>>,
    pub title: Option<Seq<char>>,
    pub subtitle: Option<Seq<char>>,
    pub paragraphs: Seq<Seq<char>>,
}

impl View for ContentBlock {
    type V = BlockModel;

    open spec fn view(&self) -> BlockModel {
        BlockModel {
            href: match self.href {
                Some(s) => Some(s@),
                None => None,
            },
            title: match self.title {
                Some(s) => Some(s@),
                None => None,
            },
            subtitle: match self.subtitle {
                Some(s) => Some(s@),
                None => None,
            },
            paragraphs: self.paragraphs@.map_values(|s: &'static str| s@),
        }
    }
}

/// The content of one page: its ordered blocks and its background asset.
#[derive(Clone, Debug, PartialEq, Eq)]
pub struct PageContent {
    pub blocks: Vec<ContentBlock>,
    pub background: &'static str,
}

/// Mathematical model of a page's content.
#[verifier::ext_equal]
pub ghost struct PageContentModel {
    pub blocks: Seq<BlockModel>,
    pub background: Seq<char>,
}

impl View for PageContent {
    type V = PageContentModel;

    open spec fn view(&self) -> PageContentModel {
        PageContentModel {
            blocks: self.blocks@.map_values(|b: ContentBlock| b@),
            background: self.background@,
        }
    }
}

/// The background asset of each page.
pub open spec fn background_for(p: Page) -> Seq<char> {
    match p {
        Page::About => ABOUT_BACKGROUND@,
        Page::Education => EDUCATION_BACKGROUND@,
        Page::Certifications => CERTIFICATIONS_BACKGROUND@,
        Page::Experience => EXPERIENCE_BACKGROUND@,
        Page::Projects => PROJECTS_BACKGROUND@,
        Page::Contributions => CONTRIBUTIONS_BACKGROUND@,
    }
}

/// The about page holds no blocks: only its background is shown.
pub open spec fn about_blocks() -> Seq<BlockModel> {
    Seq::empty()
}

pub open spec fn education_blocks() -> Seq<BlockModel> {
    seq![
        BlockModel {
            href: Some(DEGREE_HREF@),
            title: Some(DEGREE_TITLE@),
            subtitle: Some(DEGREE_SUBTITLE@),
            paragraphs: Seq::empty(),
        },
        BlockModel {
            href: Some(CAPSTONE_HREF@),
            title: Some(CAPSTONE_TITLE@),
            subtitle: Some(CAPSTONE_SUBTITLE@),
            paragraphs: seq![CAPSTONE_SUMMARY@],
        },
    ]
}

pub open spec fn certifications_blocks() -> Seq<BlockModel> {
    seq![
        BlockModel {
            href: Some(CERT_HREF@),
            title: Some(CERT_TITLE@),
            subtitle: Some(CERT_SUBTITLE@),
            paragraphs: Seq::empty(),
        },
    ]
}

pub open spec fn experience_blocks() -> Seq<BlockModel> {
    seq![
        BlockModel {
            href: None,
            title: Some(MANUFACTURING_TITLE@),
            subtitle: Some(MANUFACTURING_SUBTITLE@),
            paragraphs: seq![MANUFACTURING_SUMMARY@],
        },
        BlockModel {
            href: None,
            title: Some(FIELD_SERVICE_TITLE@),
            subtitle: Some(FIELD_SERVICE_SUBTITLE@),
            paragraphs: seq![FIELD_SERVICE_SUMMARY@],
        },
    ]
}

pub open spec fn projects_blocks() -> Seq<BlockModel> {
    seq![
        BlockModel {
            href: Some(SITE_HREF@),
            title: Some(SITE_TITLE@),
            subtitle: None,
            paragraphs: seq![SITE_SUMMARY@],
        },
        BlockModel {
            href: Some(AUTOGRAPH_HREF@),
            title: Some(AUTOGRAPH_TITLE@),
            subtitle: Some(AUTOGRAPH_SUBTITLE@),
            paragraphs: seq![AUTOGRAPH_SUMMARY@],
        },
        BlockModel {
            href: Some(KRNL_HREF@),
            title: Some(KRNL_TITLE@),
            subtitle: Some(KRNL_SUBTITLE@),
            paragraphs: seq![KRNL_SUMMARY@],
        },
    ]
}

pub open spec fn contributions_blocks() -> Seq<BlockModel> {
    seq![
        BlockModel {
            href: Some(CARGO_HREF@),
            title: Some(CARGO_TITLE@),
            subtitle: Some(CARGO_SUBTITLE@),
            paragraphs: seq![CARGO_NOTE@],
        },
        BlockModel {
            href: Some(RUST_GPU_HREF@),
            title: Some(RUST_GPU_TITLE@),
            subtitle: Some(RUST_GPU_SUBTITLE@),
            paragraphs: seq![RUST_GPU_NOTE_MODES@, RUST_GPU_NOTE_NAMES@],
        },
        BlockModel {
            href: Some(VULKANO_HREF@),
            title: Some(VULKANO_TITLE@),
            subtitle: Some(VULKANO_SUBTITLE@),
            paragraphs: seq![
                VULKANO_NOTE_SUBGROUP@,
                VULKANO_NOTE_SPEC_CONSTANT@,
                VULKANO_NOTE_PUSH_CONSTANT@,
            ],
        },
        BlockModel {
            href: Some(QDRANT_HREF@),
            title: Some(QDRANT_TITLE@),
            subtitle: Some(QDRANT_SUBTITLE@),
            paragraphs: seq![QDRANT_NOTE_ELEMENT@, QDRANT_NOTE_STORAGE@],
        },
        BlockModel {
            href: Some(ZED_HREF@),
            title: Some(ZED_TITLE@),
            subtitle: Some(ZED_SUBTITLE@),
            paragraphs: seq![ZED_NOTE@],
        },
        BlockModel {
            href: Some(HALF_HREF@),
            title: Some(HALF_TITLE@),
            subtitle: Some(HALF_SUBTITLE@),
            paragraphs: seq![
                HALF_NOTE_SPIRV@,
                HALF_NOTE_NUM_TRAITS@,
                HALF_NOTE_BYTEMUCK@,
                HALF_NOTE_AS_PRIMITIVE@,
            ],
        },
        BlockModel {
            href: Some(DLL_HREF@),
            title: Some(DLL_TITLE@),
            subtitle: Some(DLL_SUBTITLE@),
            paragraphs: seq![DLL_NOTE@],
        },
        BlockModel {
            href: Some(CAFFE2_HREF@),
            title: Some(CAFFE2_TITLE@),
            subtitle: Some(CAFFE2_SUBTITLE@),
            paragraphs: seq![CAFFE2_NOTE_PYTHON3@, CAFFE2_NOTE_TOOLS@],
        },
    ]
}

/// The blocks of each page.
pub open spec fn blocks_for(p: Page) -> Seq<BlockModel> {
    match p {
        Page::About => about_blocks(),
        Page::Education => education_blocks(),
        Page::Certifications => certifications_blocks(),
        Page::Experience => experience_blocks(),
        Page::Projects => projects_blocks(),
        Page::Contributions => contributions_blocks(),
    }
}

/// The full registry entry of a page.
pub open spec fn content_model(p: Page) -> PageContentModel {
    PageContentModel { blocks: blocks_for(p), background: background_for(p) }
}

/// The registry is total over the page enumeration: every page has a
/// defined entry, and every entry names a background asset (the asset
/// name is never empty). The blocks of a page may be empty — the about
/// page shows only its background — but the pair itself always exists.
pub proof fn lemma_registry_total()
    ensures
        forall|p: Page| #[trigger] background_for(p).len() > 0,
        forall|p: Page| #[trigger] content_model(p).background == background_for(p),
{
    assert forall|p: Page| #[trigger] background_for(p).len() > 0 by {
        reveal_strlit("Earth-From-Space-HD-Backgrounds.jpg");
        reveal_strlit("Memorial_Union_at_Oregon_State_University.jpg");
        reveal_strlit("drafting_cropped.jpg");
        reveal_strlit("semiconductors.jpg");
        reveal_strlit("Matrix.jpg");
        reveal_strlit("Polycyclic_Aromatic_Hydrocarbons_In_Space.jpg");
    }
}

/// The about page: no blocks, the space background alone.
pub fn about() -> (c: PageContent)
    ensures
        c@ == content_model(Page::About),
{
    let c = PageContent { blocks: Vec::new(), background: ABOUT_BACKGROUND };
    proof {
        assert(c@ =~~= content_model(Page::About));
    }
    c
}

pub fn education() -> (c: PageContent)
    ensures
        c@ == content_model(Page::Education),
{
    let mut blocks: Vec<ContentBlock> = Vec::new();
    blocks.push(ContentBlock {
        href: Some(DEGREE_HREF),
        title: Some(DEGREE_TITLE),
        subtitle: Some(DEGREE_SUBTITLE),
        paragraphs: Vec::new(),
    });
    let mut capstone_paragraphs: Vec<&'static str> = Vec::new();
    capstone_paragraphs.push(CAPSTONE_SUMMARY);
    blocks.push(ContentBlock {
        href: Some(CAPSTONE_HREF),
        title: Some(CAPSTONE_TITLE),
        subtitle: Some(CAPSTONE_SUBTITLE),
        paragraphs: capstone_paragraphs,
    });
    let c = PageContent { blocks, background: EDUCATION_BACKGROUND };
    proof {
        assert(c@ =~~= content_model(Page::Education));
    }
    c
}

pub fn certifications() -> (c: PageContent)
    ensures
        c@ == content_model(Page::Certifications),
{
    let mut blocks: Vec<ContentBlock> = Vec::new();
    blocks.push(ContentBlock {
        href: Some(CERT_HREF),
        title: Some(CERT_TITLE),
        subtitle: Some(CERT_SUBTITLE),
        paragraphs: Vec::new(),
    });
    let c = PageContent { blocks, background: CERTIFICATIONS_BACKGROUND };
    proof {
        assert(c@ =~~= content_model(Page::Certifications));
    }
    c
}

pub fn experience() -> (c: PageContent)
    ensures
        c@ == content_model(Page::Experience),
{
    let mut blocks: Vec<ContentBlock> = Vec::new();
    let mut manufacturing_paragraphs: Vec<&'static str> = Vec::new();
    manufacturing_paragraphs.push(MANUFACTURING_SUMMARY);
    blocks.push(ContentBlock {
        href: None,
        title: Some(MANUFACTURING_TITLE),
        subtitle: Some(MANUFACTURING_SUBTITLE),
        paragraphs: manufacturing_paragraphs,
    });
    let mut field_service_paragraphs: Vec<&'static str> = Vec::new();
    field_service_paragraphs.push(FIELD_SERVICE_SUMMARY);
    blocks.push(ContentBlock {
        href: None,
        title: Some(FIELD_SERVICE_TITLE),
        subtitle: Some(FIELD_SERVICE_SUBTITLE),
        paragraphs: field_service_paragraphs,
    });
    let c = PageContent { blocks, background: EXPERIENCE_BACKGROUND };
    proof {
        assert(c@ =~~= content_model(Page::Experience));
    }
    c
}

pub fn projects() -> (c: PageContent)
    ensures
        c@ == content_model(Page::Projects),
{
    let mut blocks: Vec<ContentBlock> = Vec::new();
    let mut site_paragraphs: Vec<&'static str> = Vec::new();
    site_paragraphs.push(SITE_SUMMARY);
    blocks.push(ContentBlock {
        href: Some(SITE_HREF),
        title: Some(SITE_TITLE),
        subtitle: None,
        paragraphs: site_paragraphs,
    });
    let mut autograph_paragraphs: Vec<&'static str> = Vec::new();
    autograph_paragraphs.push(AUTOGRAPH_SUMMARY);
    blocks.push(ContentBlock {
        href: Some(AUTOGRAPH_HREF),
        title: Some(AUTOGRAPH_TITLE),
        subtitle: Some(AUTOGRAPH_SUBTITLE),
        paragraphs: autograph_paragraphs,
    });
    let mut krnl_paragraphs: Vec<&'static str> = Vec::new();
    krnl_paragraphs.push(KRNL_SUMMARY);
    blocks.push(ContentBlock {
        href: Some(KRNL_HREF),
        title: Some(KRNL_TITLE),
        subtitle: Some(KRNL_SUBTITLE),
        paragraphs: krnl_paragraphs,
    });
    let c = PageContent { blocks, background: PROJECTS_BACKGROUND };
    proof {
        assert(c@ =~~= content_model(Page::Projects));
    }
    c
}

pub fn contributions() -> (c: PageContent)
    ensures
        c@ == content_model(Page::Contributions),
{
    let mut blocks: Vec<ContentBlock> = Vec::new();
    let mut cargo_paragraphs: Vec<&'static str> = Vec::new();
    cargo_paragraphs.push(CARGO_NOTE);
    blocks.push(ContentBlock {
        href: Some(CARGO_HREF),
        title: Some(CARGO_TITLE),
        subtitle: Some(CARGO_SUBTITLE),
        paragraphs: cargo_paragraphs,
    });
    let mut rust_gpu_paragraphs: Vec<&'static str> = Vec::new();
    rust_gpu_paragraphs.push(RUST_GPU_NOTE_MODES);
    rust_gpu_paragraphs.push(RUST_GPU_NOTE_NAMES);
    blocks.push(ContentBlock {
        href: Some(RUST_GPU_HREF),
        title: Some(RUST_GPU_TITLE),
        subtitle: Some(RUST_GPU_SUBTITLE),
        paragraphs: rust_gpu_paragraphs,
    });
    let mut vulkano_paragraphs: Vec<&'static str> = Vec::new();
    vulkano_paragraphs.push(VULKANO_NOTE_SUBGROUP);
    vulkano_paragraphs.push(VULKANO_NOTE_SPEC_CONSTANT);
    vulkano_paragraphs.push(VULKANO_NOTE_PUSH_CONSTANT);
    blocks.push(ContentBlock {
        href: Some(VULKANO_HREF),
        title: Some(VULKANO_TITLE),
        subtitle: Some(VULKANO_SUBTITLE),
        paragraphs: vulkano_paragraphs,
    });
    let mut qdrant_paragraphs: Vec<&'static str> = Vec::new();
    qdrant_paragraphs.push(QDRANT_NOTE_ELEMENT);
    qdrant_paragraphs.push(QDRANT_NOTE_STORAGE);
    blocks.push(ContentBlock {
        href: Some(QDRANT_HREF),
        title: Some(QDRANT_TITLE),
        subtitle: Some(QDRANT_SUBTITLE),
        paragraphs: qdrant_paragraphs,
    });
    let mut zed_paragraphs: Vec<&'static str> = Vec::new();
    zed_paragraphs.push(ZED_NOTE);
    blocks.push(ContentBlock {
        href: Some(ZED_HREF),
        title: Some(ZED_TITLE),
        subtitle: Some(ZED_SUBTITLE),
        paragraphs: zed_paragraphs,
    });
    let mut half_paragraphs: Vec<&'static str> = Vec::new();
    half_paragraphs.push(HALF_NOTE_SPIRV);
    half_paragraphs.push(HALF_NOTE_NUM_TRAITS);
    half_paragraphs.push(HALF_NOTE_BYTEMUCK);
    half_paragraphs.push(HALF_NOTE_AS_PRIMITIVE);
    blocks.push(ContentBlock {
        href: Some(HALF_HREF),
        title: Some(HALF_TITLE),
        subtitle: Some(HALF_SUBTITLE),
        paragraphs: half_paragraphs,
    });
    let mut dll_paragraphs: Vec<&'static str> = Vec::new();
    dll_paragraphs.push(DLL_NOTE);
    blocks.push(ContentBlock {
        href: Some(DLL_HREF),
        title: Some(DLL_TITLE),
        subtitle: Some(DLL_SUBTITLE),
        paragraphs: dll_paragraphs,
    });
    let mut caffe2_paragraphs: Vec<&'static str> = Vec::new();
    caffe2_paragraphs.push(CAFFE2_NOTE_PYTHON3);
    caffe2_paragraphs.push(CAFFE2_NOTE_TOOLS);
    blocks.push(ContentBlock {
        href: Some(CAFFE2_HREF),
        title: Some(CAFFE2_TITLE),
        subtitle: Some(CAFFE2_SUBTITLE),
        paragraphs: caffe2_paragraphs,
    });
    let c = PageContent { blocks, background: CONTRIBUTIONS_BACKGROUND };
    proof {
        assert(c@ =~~= content_model(Page::Contributions));
    }
    c
}

/// The registry lookup: total over the page enumeration by construction,
/// and a pure function of the page alone.
pub fn content_for(p: Page) -> (c: PageContent)
    ensures
        c@ == content_model(p),
{
    match p {
        Page::About => about(),
        Page::Education => education(),
        Page::Certifications => certifications(),
        Page::Experience => experience(),
        Page::Projects => projects(),
        Page::Contributions => contributions(),
    }
}

} // verus!
