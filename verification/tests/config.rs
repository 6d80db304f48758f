use hypatia::config::{
    check_config_version, into_relative, plan_stages, Authors, Common, ConfigError, ImageInfo,
    Meta, Shaders, StageConfig, StagePaths, TextureInfo, TextureSource, Version, VideoInfo,
};
use hypatia::pipeline::Scaling;

fn meta(major: u8, minor: u8) -> Meta {
    Meta {
        config_version: Version { major, minor },
        name: "Silly Test".to_owned(),
        version: "0.1".to_owned(),
        authors: Authors {
            authors: vec!["Me".to_owned(), "Silly".to_owned()],
        },
        description: "A very silly pipeline config".to_owned(),
    }
}

#[test]
fn only_version_0_1_is_supported() {
    assert_eq!(check_config_version(&meta(0, 1)), Ok(()));
    assert_eq!(
        check_config_version(&meta(0, 2)),
        Err(ConfigError::UnsupportedVersion { major: 0, minor: 2 })
    );
    assert_eq!(
        check_config_version(&meta(1, 1)),
        Err(ConfigError::UnsupportedVersion { major: 1, minor: 1 })
    );
}

#[test]
fn config_error_messages() {
    assert_eq!(
        ConfigError::UnsupportedVersion { major: 12, minor: 0 }.message(),
        "Unsupported config version: `12.0`. Only version 0.1 is supported by this version of Hypatia."
    );
    assert_eq!(
        ConfigError::NoParent.message(),
        "Canonical config path has no parent??? What are you doing???"
    );
}

#[test]
fn relative_paths_resolve_against_config_directory() {
    assert_eq!(
        into_relative("media/hypatia 2.mp4", "/home/me/walls/pipeline.kdl"),
        Ok("/home/me/walls/media/hypatia 2.mp4".to_owned())
    );
    assert_eq!(
        into_relative("lol.png", "/pipeline.kdl"),
        Ok("/lol.png".to_owned())
    );
}

#[test]
fn absolute_paths_stay() {
    assert_eq!(
        into_relative("/srv/video.mp4", "/home/me/walls/pipeline.kdl"),
        Ok("/srv/video.mp4".to_owned())
    );
    assert_eq!(into_relative("/srv/video.mp4", "/"), Ok("/srv/video.mp4".to_owned()));
}

#[test]
fn relative_path_without_parent_fails() {
    assert_eq!(into_relative("lol.png", "/"), Err(ConfigError::NoParent));
    assert_eq!(into_relative("lol.png", ""), Err(ConfigError::NoParent));
}

#[test]
fn texture_sources_are_videos_then_images() {
    let info = TextureInfo {
        video: vec![VideoInfo {
            file: "media/hypatia 2.mp4".to_owned(),
            audio: false,
            scaling: Scaling::Unscaled,
        }],
        image: vec![ImageInfo {
            file: "lol.png".to_owned(),
        }, ImageInfo {
            file: "/abs/pic.png".to_owned(),
        }],
    };
    let sources = info.sources("/walls/silly/pipeline.kdl").unwrap();
    assert_eq!(
        sources,
        vec![
            TextureSource::Video {
                file: "/walls/silly/media/hypatia 2.mp4".to_owned(),
                audio: false,
                scaling: Scaling::Unscaled,
            },
            TextureSource::Image {
                file: "/walls/silly/lol.png".to_owned(),
            },
            TextureSource::Image {
                file: "/abs/pic.png".to_owned(),
            },
        ]
    );
}

#[test]
fn texture_sources_fail_without_parent() {
    let info = TextureInfo {
        video: vec![],
        image: vec![ImageInfo {
            file: "lol.png".to_owned(),
        }],
    };
    assert_eq!(info.sources("/"), Err(ConfigError::NoParent));
    let absolute_only = TextureInfo {
        video: vec![VideoInfo {
            file: "/v.mp4".to_owned(),
            audio: true,
            scaling: Scaling::default(),
        }],
        image: vec![],
    };
    assert_eq!(
        absolute_only.sources("/"),
        Ok(vec![TextureSource::Video {
            file: "/v.mp4".to_owned(),
            audio: true,
            scaling: Scaling::CropToFit,
        }])
    );
}

#[test]
fn common_shaders_default_to_none() {
    let common = Common::default();
    assert!(common.vert.shaders.is_empty());
    assert!(common.frag.shaders.is_empty());
    assert_eq!(Shaders::default(), Shaders { shaders: vec![] });
}

fn stage(vert: &str, frag: &str, output: Option<&str>) -> StageConfig {
    StageConfig {
        vert: vert.to_owned(),
        frag: frag.to_owned(),
        output: output.map(|x| x.to_owned()),
    }
}

#[test]
fn stages_are_planned_in_order() {
    let stages = vec![
        stage("vert.glsl", "frag-bloom.glsl", Some("bloom_buffer")),
        stage("vert.glsl", "/shaders/frag2.glsl", Some("buffer2_electric_boogaloo")),
        stage("vert.glsl", "frag.glsl", None),
    ];
    let (paths, names) = plan_stages(&stages, "/walls/silly/pipeline.kdl").unwrap();
    assert_eq!(
        paths,
        vec![
            StagePaths {
                vert: "/walls/silly/vert.glsl".to_owned(),
                frag: "/walls/silly/frag-bloom.glsl".to_owned(),
            },
            StagePaths {
                vert: "/walls/silly/vert.glsl".to_owned(),
                frag: "/shaders/frag2.glsl".to_owned(),
            },
            StagePaths {
                vert: "/walls/silly/vert.glsl".to_owned(),
                frag: "/walls/silly/frag.glsl".to_owned(),
            },
        ]
    );
    assert_eq!(names, vec!["bloom_buffer".to_owned(), "buffer2_electric_boogaloo".to_owned()]);
    assert_eq!(plan_stages(&vec![], "/"), Ok((vec![], vec![])));
    assert_eq!(plan_stages(&stages, "/"), Err(ConfigError::NoParent));
}
