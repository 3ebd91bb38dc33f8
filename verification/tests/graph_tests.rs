use framecore::graph::ClearConfig;
use framecore::graph::DispatchConfig;
use framecore::graph::DrawConfig;
use framecore::graph::DrawOrchestrator;
use framecore::graph::GraphError;
use framecore::graph::ImageConfig;
use framecore::graph::Pass;
use framecore::render::ImageLayoutState;
use framecore::render::PushConstants;
use framecore::render::RenderOp;
use framecore::store::PipelineErr;
use framecore::store::PipelineStore;

fn two_image_config() -> DrawConfig {
    DrawConfig {
        passes: vec![
            Pass {
                shader: "a.comp".to_string(),
                dispatches: DispatchConfig::FullScreen,
                input_resources: vec![],
                output_resources: vec![0],
            },
            Pass {
                shader: "b.comp".to_string(),
                dispatches: DispatchConfig::Count(4, 5, 6),
                input_resources: vec![0],
                output_resources: vec![1],
            },
        ],
        images: vec![
            ImageConfig { clear: ClearConfig::Color(0, 0, 0) },
            ImageConfig { clear: ClearConfig::NoClear },
        ],
    }
}

#[test]
fn build_valid_config_counts_and_dispatches() {
    let config = two_image_config();
    let mut store = PipelineStore::new();
    let compiled = vec![Ok(vec![1]), Ok(vec![2])];
    let orch = DrawOrchestrator::build(&config, 640, 480, &mut store, &compiled).unwrap();

    assert_eq!(orch.image_resources.len(), 2);
    assert_eq!(orch.passes.len(), 2);
    assert_eq!(store.len(), 2);

    assert_eq!(orch.image_resources[0].identity, 0);
    assert_eq!(orch.image_resources[0].width, 640);
    assert_eq!(orch.image_resources[0].height, 480);
    assert_eq!(orch.image_resources[0].clear, ClearConfig::Color(0, 0, 0));
    assert_eq!(orch.image_resources[1].identity, 1);
    assert_eq!(orch.image_resources[1].clear, ClearConfig::NoClear);

    // 640 / 32 = 20 groups, 480 / 32 = 15 groups, one layer.
    assert_eq!(orch.passes[0].dispatches.x, 20);
    assert_eq!(orch.passes[0].dispatches.y, 15);
    assert_eq!(orch.passes[0].dispatches.z, 1);
    // Explicit counts are copied through.
    assert_eq!(orch.passes[1].dispatches.x, 4);
    assert_eq!(orch.passes[1].dispatches.y, 5);
    assert_eq!(orch.passes[1].dispatches.z, 6);

    let pa = store.get(orch.passes[0].pipeline_handle).unwrap();
    assert_eq!(pa.code, vec![1]);
    let pb = store.get(orch.passes[1].pipeline_handle).unwrap();
    assert_eq!(pb.code, vec![2]);
}

#[test]
fn build_full_screen_rounds_up() {
    let config = DrawConfig {
        passes: vec![Pass {
            shader: "a.comp".to_string(),
            dispatches: DispatchConfig::FullScreen,
            input_resources: vec![],
            output_resources: vec![0],
        }],
        images: vec![ImageConfig { clear: ClearConfig::NoClear }],
    };
    let mut store = PipelineStore::new();
    let compiled = vec![Ok(vec![1])];
    let orch = DrawOrchestrator::build(&config, 33, 32, &mut store, &compiled).unwrap();
    // ceil(33 / 32) = 2, ceil(32 / 32) = 1.
    assert_eq!(orch.passes[0].dispatches.x, 2);
    assert_eq!(orch.passes[0].dispatches.y, 1);
    assert_eq!(orch.passes[0].dispatches.z, 1);
}

#[test]
fn build_empty_pass_list_still_creates_images() {
    let config = DrawConfig {
        passes: vec![],
        images: vec![ImageConfig { clear: ClearConfig::NoClear }],
    };
    let mut store = PipelineStore::new();
    let compiled = vec![];
    let orch = DrawOrchestrator::build(&config, 64, 64, &mut store, &compiled).unwrap();
    assert_eq!(orch.image_resources.len(), 1);
    assert_eq!(orch.passes.len(), 0);
    assert_eq!(store.len(), 0);
}

#[test]
fn build_with_zero_images_rejects_any_reference() {
    let config = DrawConfig {
        passes: vec![Pass {
            shader: "a.comp".to_string(),
            dispatches: DispatchConfig::FullScreen,
            input_resources: vec![0],
            output_resources: vec![],
        }],
        images: vec![],
    };
    let mut store = PipelineStore::new();
    let compiled = vec![Ok(vec![1])];
    match DrawOrchestrator::build(&config, 64, 64, &mut store, &compiled) {
        Err(GraphError::OutOfBounds { pass, identity, image_count }) => {
            assert_eq!(pass, 0);
            assert_eq!(identity, 0);
            assert_eq!(image_count, 0);
        },
        _ => panic!("a reference into an empty image set must not build"),
    }
}

#[test]
fn record_frame_single_image_blits_it() {
    let config = DrawConfig {
        passes: vec![],
        images: vec![ImageConfig { clear: ClearConfig::NoClear }],
    };
    let mut store = PipelineStore::new();
    let compiled = vec![];
    let orch = DrawOrchestrator::build(&config, 64, 64, &mut store, &compiled).unwrap();
    let ops = orch.record_frame(
        &store,
        5,
        ImageLayoutState::Undefined,
        ImageLayoutState::TransferSrc,
    );
    assert_eq!(ops.len(), 6);
    assert!(matches!(ops[3], RenderOp::BlitToTarget { source: 0 }));
}

#[test]
fn build_out_of_bounds_identity_fails_and_allocates_nothing() {
    let config = DrawConfig {
        passes: vec![Pass {
            shader: "a.comp".to_string(),
            dispatches: DispatchConfig::FullScreen,
            input_resources: vec![],
            output_resources: vec![2],
        }],
        images: vec![
            ImageConfig { clear: ClearConfig::NoClear },
            ImageConfig { clear: ClearConfig::NoClear },
        ],
    };
    let mut store = PipelineStore::new();
    let compiled = vec![Ok(vec![1])];
    match DrawOrchestrator::build(&config, 100, 100, &mut store, &compiled) {
        Err(GraphError::OutOfBounds { pass, identity, image_count }) => {
            assert_eq!(pass, 0);
            assert_eq!(identity, 2);
            assert_eq!(image_count, 2);
        },
        Err(GraphError::Compile(_)) => panic!("wrong error kind"),
        Ok(_) => panic!("out-of-bounds config must not build"),
    }
    assert_eq!(store.len(), 0, "a failed validation must register nothing");
}

#[test]
fn build_first_compile_error_aborts() {
    let config = two_image_config();
    let mut store = PipelineStore::new();
    let compiled = vec![
        Ok(vec![1]),
        Err(PipelineErr::ShaderCompilation("b failed".to_string())),
    ];
    match DrawOrchestrator::build(&config, 640, 480, &mut store, &compiled) {
        Err(GraphError::Compile(PipelineErr::ShaderCompilation(m))) => {
            assert_eq!(m, "b failed");
        },
        Err(GraphError::OutOfBounds { .. }) => panic!("wrong error kind"),
        Ok(_) => panic!("compile failure must abort the build"),
    }
}

#[test]
fn record_frame_blits_final_output_to_target() {
    let config = two_image_config();
    let mut store = PipelineStore::new();
    let compiled = vec![Ok(vec![1]), Ok(vec![2])];
    let orch = DrawOrchestrator::build(&config, 640, 480, &mut store, &compiled).unwrap();

    let ops = orch.record_frame(
        &store,
        0,
        ImageLayoutState::Presentable,
        ImageLayoutState::Presentable,
    );

    let expected = vec![
        // Image 0 clears to black; image 1 has no clear policy.
        RenderOp::TransitionImage {
            image: 0,
            from: ImageLayoutState::General,
            to: ImageLayoutState::TransferDst,
        },
        RenderOp::ClearImage { image: 0, red: 0, green: 0, blue: 0 },
        RenderOp::TransitionImage {
            image: 0,
            from: ImageLayoutState::TransferDst,
            to: ImageLayoutState::General,
        },
        // Pass A: writes image 0 from no inputs.
        RenderOp::BindProgram { program: 0 },
        RenderOp::PushConstantBlock {
            constants: PushConstants { time_bits: 0, in_image: -1, out_image: 0 },
        },
        RenderOp::BindImageArray { count: 2 },
        RenderOp::Dispatch { x: 20, y: 15, z: 1 },
        // Pass B: reads image 0, writes image 1.
        RenderOp::BindProgram { program: 1 },
        RenderOp::PushConstantBlock {
            constants: PushConstants { time_bits: 0, in_image: 0, out_image: 1 },
        },
        RenderOp::BindImageArray { count: 2 },
        RenderOp::Dispatch { x: 4, y: 5, z: 6 },
        // Image 1, the designated final output, is the one blitted.
        RenderOp::TransitionImage {
            image: 1,
            from: ImageLayoutState::General,
            to: ImageLayoutState::TransferSrc,
        },
        RenderOp::TransitionTarget {
            from: ImageLayoutState::Presentable,
            to: ImageLayoutState::TransferDst,
        },
        RenderOp::ClearTarget,
        RenderOp::BlitToTarget { source: 1 },
        RenderOp::TransitionTarget {
            from: ImageLayoutState::TransferDst,
            to: ImageLayoutState::Presentable,
        },
        RenderOp::TransitionImage {
            image: 1,
            from: ImageLayoutState::TransferSrc,
            to: ImageLayoutState::General,
        },
    ];
    assert_eq!(ops, expected);

    let blits: Vec<&RenderOp> = ops
        .iter()
        .filter(|op| matches!(op, RenderOp::BlitToTarget { .. }))
        .collect();
    assert_eq!(blits.len(), 1);
    assert!(matches!(blits[0], RenderOp::BlitToTarget { source: 1 }));
}

#[test]
fn record_frame_skips_pass_whose_handle_names_no_program() {
    let config = two_image_config();
    let mut store = PipelineStore::new();
    let compiled = vec![Ok(vec![1]), Ok(vec![2])];
    let orch = DrawOrchestrator::build(&config, 640, 480, &mut store, &compiled).unwrap();

    // Record against a store that knows none of the handles: every pass
    // is skipped, but clears and the final copy still happen.
    let other_store = PipelineStore::new();
    let ops = orch.record_frame(
        &other_store,
        0,
        ImageLayoutState::Presentable,
        ImageLayoutState::Presentable,
    );
    assert_eq!(ops.len(), 3 + 6);
    assert!(!ops.iter().any(|op| matches!(op, RenderOp::BindProgram { .. })));
    assert!(!ops.iter().any(|op| matches!(op, RenderOp::Dispatch { .. })));
    assert!(matches!(ops[ops.len() - 3], RenderOp::BlitToTarget { source: 1 }));
}
